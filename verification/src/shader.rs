//! Vertex attributes of a shader program.
//!
//! An attribute names a per-vertex input of a vertex shader and records the
//! shape of the data bound to it. Its location inside a linked program is
//! assigned at link time; until then the attribute is unlinked and must not
//! be enabled.

use vstd::prelude::*;

verus! {

/// A named per-vertex input of a vertex shader.
#[derive(Debug, Clone, Copy)]
pub struct Attribute {
    /// The attribute's name inside the shader source.
    pub name: &'static str,
    /// The shape of the values bound to the attribute.
    pub type_: AttributeType,
    /// The attribute's location inside the linked program; `None` until a
    /// program resolves it at link time.
    pub index: Option<u32>,
}

impl Attribute {
    /// Creates an attribute that no program has resolved yet.
    pub fn new(name: &'static str, type_: AttributeType) -> (r: Self)
        ensures
            r.name@ == name@,
            r.type_ == type_,
            r.index is None,
    {
        Attribute { name, type_, index: None }
    }

    /// The location that the rendering context must enable for this
    /// attribute. Only an attribute that a program has resolved may be
    /// enabled.
    pub fn enable(&self) -> (loc: u32)
        requires
            self.index is Some,
        ensures
            Some(loc) == self.index,
    {
        self.index.unwrap()
    }
}

/// The shape of the data bound to a vertex attribute.
#[derive(Debug, Clone, Copy, PartialEq, Eq, Structural)]
pub enum AttributeType {
    /// Three components per vertex (a position or a normal).
    Vec3,
    /// Four components per vertex (a color).
    Vec4,
}

impl AttributeType {
    /// The number of components per vertex of this shape.
    pub open spec fn stride_spec(&self) -> u32 {
        match self {
            AttributeType::Vec3 => 3,
            AttributeType::Vec4 => 4,
        }
    }

    /// The number of components per vertex of this shape.
    pub fn stride(&self) -> (r: u32)
        ensures
            r == self.stride_spec(),
    {
        match self {
            AttributeType::Vec3 => 3,
            AttributeType::Vec4 => 4,
        }
    }
}

} // verus!
