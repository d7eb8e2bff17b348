use napier::sphere_indexes;
use napier::torus_indexes;
use napier::vertex_grid;
use napier::GridPoint;

/// The classic reference sweep's triangulation, written independently:
/// outer loop over `row`, inner loop over `column`, quad start
/// `r = (column + 1) * i + ii`, triangles `(r, r + column + 1, r + 1)` and
/// `(r + column + 1, r + column + 2, r + 1)`.
fn reference_torus_indexes(row: usize, column: usize) -> Vec<i16> {
    let mut idx: Vec<i16> = Vec::new();
    let column = column as i16;
    for i in 0..(row as i16) {
        for ii in 0..column {
            let r = (column + 1) * i + ii;
            idx.push(r);
            idx.push(r + column + 1);
            idx.push(r + 1);
            idx.push(r + column + 1);
            idx.push(r + column + 2);
            idx.push(r + 1);
        }
    }
    idx
}

#[test]
fn test_torus() {
    let torus1 = torus_indexes(64, 64);
    let torus2 = reference_torus_indexes(64, 64);
    assert_eq!(torus1.as_slice(), torus2.as_slice());

    let torus1 = torus_indexes(32, 32);
    let torus2 = reference_torus_indexes(32, 32);
    assert_eq!(torus1.as_slice(), torus2.as_slice());
}

#[test]
fn torus_counts() {
    // (tube_steps + 1) * (core_steps + 1) vertices, 2 * tube_steps * core_steps triangles
    assert_eq!(vertex_grid(3, 5).len(), 4 * 6);
    assert_eq!(torus_indexes(3, 5).len(), 3 * 2 * 3 * 5);
    assert_eq!(vertex_grid(1, 1).len(), 4);
    assert_eq!(torus_indexes(1, 1).len(), 6);
    // degenerate subdivision counts are accepted and yield no triangles
    assert_eq!(torus_indexes(0, 5).len(), 0);
    assert_eq!(torus_indexes(5, 0).len(), 0);
    assert_eq!(vertex_grid(0, 0).len(), 1);
}

#[test]
fn torus_largest_mesh() {
    // (127 + 1) * (255 + 1) == 0x8000: the largest vertex count the 16-bit
    // index type admits; the top index value is exactly 0x7fff
    let grid = vertex_grid(127, 255);
    assert_eq!(grid.len(), 0x8000);
    let idx = torus_indexes(127, 255);
    assert_eq!(idx.len(), 6 * 127 * 255);
    let max = idx.as_slice().iter().max().copied();
    assert_eq!(max, Some(0x7fff));
    let min = idx.as_slice().iter().min().copied();
    assert_eq!(min, Some(0));
}

#[test]
fn torus_determinism() {
    let a = torus_indexes(32, 32);
    let b = torus_indexes(32, 32);
    assert_eq!(a, b);
    let ga = vertex_grid(32, 32);
    let gb = vertex_grid(32, 32);
    assert_eq!(ga, gb);
}

#[test]
fn torus_first_quads() {
    // tube_steps = 2, core_steps = 3: stride 4; quad (0,0) starts at 0
    let idx = torus_indexes(2, 3);
    let expect: Vec<i16> = vec![
        0, 4, 1, 4, 5, 1, // quad (0,0)
        1, 5, 2, 5, 6, 2, // quad (0,1)
        2, 6, 3, 6, 7, 3, // quad (0,2)
        4, 8, 5, 8, 9, 5, // quad (1,0)
        5, 9, 6, 9, 10, 6, // quad (1,1)
        6, 10, 7, 10, 11, 7, // quad (1,2)
    ];
    assert_eq!(idx.as_slice(), expect.as_slice());
}

#[test]
fn torus_indexes_stay_within_grid() {
    let grid = vertex_grid(4, 6);
    let idx = torus_indexes(4, 6);
    for &v in idx.as_slice() {
        assert!(0 <= v);
        assert!((v as usize) < grid.len());
    }
}

#[test]
fn torus_winding_is_uniform() {
    // every triangle has orientation +1 in the (tube, core) parameter plane
    let idx = torus_indexes(4, 6);
    let stride = 6 + 1;
    let tri = idx.as_slice();
    assert_eq!(tri.len() % 3, 0);
    for n in 0..tri.len() / 3 {
        let (a, b, d) = (tri[3 * n] as i32, tri[3 * n + 1] as i32, tri[3 * n + 2] as i32);
        let e1 = (b / stride - a / stride, b % stride - a % stride);
        let e2 = (d / stride - a / stride, d % stride - a % stride);
        assert_eq!(e1.0 * e2.1 - e1.1 * e2.0, 1);
    }
}

#[test]
fn grid_enumeration_order() {
    let grid = vertex_grid(1, 2);
    let expect = [(0, 0), (0, 1), (0, 2), (1, 0), (1, 1), (1, 2)];
    assert_eq!(grid.len(), expect.len());
    for (p, &(outer, inner)) in grid.iter().zip(expect.iter()) {
        assert_eq!(*p, GridPoint { outer, inner });
    }
}

#[test]
fn sphere_scenario() {
    // row = 2, column = 4: 3 rings of 5 samples, 2 * 2 * 4 triangles
    let grid = vertex_grid(2, 4);
    assert_eq!(grid.len(), 15);
    let idx = sphere_indexes(2, 4);
    assert_eq!(idx.len(), 16 * 3);
    for &v in idx.as_slice() {
        assert!(0 <= v);
        assert!((v as usize) < grid.len());
    }
    // the north-pole ring is the five vertices of outer step 0
    for k in 0..5 {
        assert_eq!(grid[k].outer, 0);
        assert_eq!(grid[k].inner, k as u32);
    }
}

#[test]
fn sphere_first_quad() {
    // row = 1, column = 1: stride 2; triangles (0, 1, 3) and (0, 3, 2)
    let idx = sphere_indexes(1, 1);
    let expect: Vec<i16> = vec![0, 1, 3, 0, 3, 2];
    assert_eq!(idx.as_slice(), expect.as_slice());
}

#[test]
fn sphere_determinism() {
    let a = sphere_indexes(3, 5);
    let b = sphere_indexes(3, 5);
    assert_eq!(a, b);
}

#[test]
fn sphere_winding_is_uniform() {
    // every triangle has orientation -1 in the (polar, azimuth) parameter plane
    let idx = sphere_indexes(3, 5);
    let stride = 5 + 1;
    let tri = idx.as_slice();
    assert_eq!(tri.len() % 3, 0);
    for n in 0..tri.len() / 3 {
        let (a, b, d) = (tri[3 * n] as i32, tri[3 * n + 1] as i32, tri[3 * n + 2] as i32);
        let e1 = (b / stride - a / stride, b % stride - a % stride);
        let e2 = (d / stride - a / stride, d % stride - a % stride);
        assert_eq!(e1.0 * e2.1 - e1.1 * e2.0, -1);
    }
}
