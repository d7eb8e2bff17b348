use napier::rect_corner_signs;
use napier::rect_indexes;
use napier::rect_tex_coords;

#[test]
fn rect_boundary() {
    // width 2, height 4: corners at (±1, ±2, 0), derived from the sign
    // pattern scaled by the half extents
    let (half_width, half_height) = (2.0f32 / 2.0, 4.0f32 / 2.0);
    let signs = rect_corner_signs();
    assert_eq!(signs.len(), 12);
    let mut positions: Vec<f32> = Vec::new();
    for corner in signs.as_slice().chunks(3) {
        positions.push(corner[0] as f32 * half_width);
        positions.push(corner[1] as f32 * half_height);
        positions.push(corner[2] as f32);
    }
    let expect: Vec<f32> = vec![
        -1.0, 2.0, 0.0, // top left
        1.0, 2.0, 0.0, // top right
        -1.0, -2.0, 0.0, // bottom left
        1.0, -2.0, 0.0, // bottom right
    ];
    assert_eq!(positions, expect);
}

#[test]
fn rect_triangles() {
    let idx = rect_indexes();
    let expect: Vec<i16> = vec![0, 1, 2, 1, 3, 2];
    assert_eq!(idx.as_slice(), expect.as_slice());
    // the two triangles reference each of the four corners
    for corner in 0..4i16 {
        assert!(idx.as_slice().contains(&corner));
    }
}

#[test]
fn rect_texture_corners() {
    let uv = rect_tex_coords();
    let expect: Vec<u8> = vec![0, 0, 1, 0, 0, 1, 1, 1];
    assert_eq!(uv, expect);
}
