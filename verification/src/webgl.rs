//! Typed attribute handles.
//!
//! Where [`crate::shader::Attribute`] carries its data shape as a runtime
//! value, the handle here carries it in the type: an `Attribute<Vec3<T>>`
//! can only ever be fed stride-3 data. A program visits its attributes at
//! link time and builds one handle per resolved location through
//! [`AttributeBase::from_parts`].

use crate::arrays::Vec3;
use crate::arrays::Vec4;
use core::marker::PhantomData;
use vstd::prelude::*;

verus! {

/// Builds a typed attribute handle from a resolved shader location.
pub trait AttributeBase {
    /// Creates the handle for the attribute `name`, resolved at `location`
    /// inside a linked program.
    fn from_parts(name: &'static str, location: u32) -> (r: Self) where Self: core::marker::Sized;
}

/// A shader attribute handle whose type parameter fixes the shape of the
/// data bound to it.
pub struct Attribute<V> {
    /// The attribute's name inside the shader source.
    pub name: &'static str,
    /// The attribute's location inside the linked program.
    pub location: u32,
    _value: PhantomData<V>,
}

impl<T> AttributeBase for Attribute<Vec3<T>> {
    fn from_parts(name: &'static str, location: u32) -> (r: Self) {
        Attribute { name, location, _value: PhantomData }
    }
}

impl<T> AttributeBase for Attribute<Vec4<T>> {
    fn from_parts(name: &'static str, location: u32) -> (r: Self) {
        Attribute { name, location, _value: PhantomData }
    }
}

} // verus!
