use napier::Attribute;
use napier::AttributeType;
use napier::Cell;
use napier::GlTextureUnit;
use napier::Shared;
use napier::SharedVector3;
use napier::Vec3;
use napier::Vec4;
use napier::Vector3Cell;

#[test]
fn vec3_push_order() {
    let mut v: Vec3<i16> = Vec3::new();
    assert_eq!(v.len(), 0);
    v.push_3(1, 2, 3);
    v.push_3(4, 5, 6);
    assert_eq!(v.len(), 6);
    assert_eq!(v.as_slice(), &[1, 2, 3, 4, 5, 6]);
}

#[test]
fn vec4_push_order() {
    let mut v: Vec4<u8> = Vec4::new();
    assert_eq!(v.len(), 0);
    v.push_4(9, 8, 7, 6);
    assert_eq!(v.len(), 4);
    assert_eq!(v.as_slice(), &[9, 8, 7, 6]);
}

#[test]
fn cell_add() {
    let mut v: Cell<i64> = Cell::new(1);
    v.add(1);
    assert_eq!(v.get(), 2);
    v.add(-3);
    assert_eq!(v.get(), -1);
}

#[test]
fn cell_set_get() {
    let mut v: Cell<u8> = Cell::new(7);
    assert_eq!(v.get(), 7);
    v.set(9);
    assert_eq!(v.get(), 9);
}

#[test]
fn vector3_cell_components() {
    let mut v: Vector3Cell<i64> = Vector3Cell::zero();
    assert_eq!(v.get(), (0, 0, 0));
    v.set(1, -2, 3);
    assert_eq!(v.get(), (1, -2, 3));
    v.x.add(10);
    assert_eq!(v.get(), (11, -2, 3));
}

#[test]
fn shared_add() {
    let mut v: Shared<i64> = Shared::new(1);
    v.add(1);
    assert_eq!(v.get(), 2);
}

#[test]
fn shared_vector3_components() {
    let mut v: SharedVector3<i64> = SharedVector3::zero();
    assert_eq!(v.get(), (0, 0, 0));
    v.set(4, 5, 6);
    assert_eq!(v.get(), (4, 5, 6));
    v.z.set(-6);
    assert_eq!(v.get(), (4, 5, -6));
}

#[test]
fn attribute_starts_unlinked() {
    let attr = Attribute::new("position", AttributeType::Vec3);
    assert_eq!(attr.name, "position");
    assert!(attr.index.is_none());
    assert!(matches!(attr.type_, AttributeType::Vec3));
}

#[test]
fn attribute_enable_returns_location() {
    let mut attr = Attribute::new("color", AttributeType::Vec4);
    attr.index = Some(3);
    assert_eq!(attr.enable(), 3);
}

#[test]
fn attribute_type_stride() {
    assert_eq!(AttributeType::Vec3.stride(), 3);
    assert_eq!(AttributeType::Vec4.stride(), 4);
}

#[test]
fn texture_unit_numbers() {
    let units = [
        GlTextureUnit::Unit0,
        GlTextureUnit::Unit1,
        GlTextureUnit::Unit2,
        GlTextureUnit::Unit3,
        GlTextureUnit::Unit4,
        GlTextureUnit::Unit5,
        GlTextureUnit::Unit6,
        GlTextureUnit::Unit7,
    ];
    for (i, unit) in units.iter().enumerate() {
        assert_eq!(unit.to_int(), i as i32);
    }
}
