//! Flat attribute arrays with a fixed per-vertex stride.
//!
//! A GPU buffer upload layer expects vertex attributes as flat arrays:
//! positions and normals with stride 3, colors with stride 4. `Vec3` and
//! `Vec4` keep that convention in the type: elements can only be appended a
//! whole vertex at a time, so a well-formed array never holds a torn vertex.

use vstd::prelude::*;

verus! {

/// A flat array whose elements are appended three at a time (stride 3).
#[derive(Debug, Clone, PartialEq)]
pub struct Vec3<T>(Vec<T>);

/// A flat array whose elements are appended four at a time (stride 4).
#[derive(Debug, Clone, PartialEq)]
pub struct Vec4<T>(Vec<T>);

impl<T> View for Vec3<T> {
    type V = Seq<T>;

    closed spec fn view(&self) -> Seq<T> {
        self.0@
    }
}

impl<T> View for Vec4<T> {
    type V = Seq<T>;

    closed spec fn view(&self) -> Seq<T> {
        self.0@
    }
}

impl<T> Vec3<T> {
    /// Creates an empty stride-3 array.
    pub fn new() -> (r: Self)
        ensures
            r@ == Seq::<T>::empty(),
    {
        Vec3(Vec::new())
    }

    /// Appends one vertex worth of data: the three components in order.
    pub fn push_3(&mut self, a: T, b: T, c: T)
        ensures
            final(self)@ == old(self)@.push(a).push(b).push(c),
    {
        self.0.push(a);
        self.0.push(b);
        self.0.push(c);
    }

    /// The number of scalar elements held (three per vertex).
    pub fn len(&self) -> (r: usize)
        ensures
            r == self@.len(),
    {
        self.0.len()
    }

    /// The elements as a slice, in push order.
    pub fn as_slice(&self) -> (r: &[T])
        ensures
            r@ == self@,
    {
        self.0.as_slice()
    }
}

impl<T> Vec4<T> {
    /// Creates an empty stride-4 array.
    pub fn new() -> (r: Self)
        ensures
            r@ == Seq::<T>::empty(),
    {
        Vec4(Vec::new())
    }

    /// Appends one vertex worth of data: the four components in order.
    pub fn push_4(&mut self, a: T, b: T, c: T, d: T)
        ensures
            final(self)@ == old(self)@.push(a).push(b).push(c).push(d),
    {
        self.0.push(a);
        self.0.push(b);
        self.0.push(c);
        self.0.push(d);
    }

    /// The number of scalar elements held (four per vertex).
    pub fn len(&self) -> (r: usize)
        ensures
            r == self@.len(),
    {
        self.0.len()
    }

    /// The elements as a slice, in push order.
    pub fn as_slice(&self) -> (r: &[T])
        ensures
            r@ == self@,
    {
        self.0.as_slice()
    }
}

} // verus!
