//! Slots for scene state, under the names the scene-graph handles use:
//! `Shared` wraps [`crate::cell::Cell`] and adds nothing to it but the name
//! that spells out its role — one value read by several holders of the
//! same handle.

use crate::cell::Cell;
use vstd::prelude::*;

verus! {

/// A container of three independently updatable components, used for
/// three-dimensional scene vectors such as a position or a rotation axis.
#[derive(Debug, Clone, Copy)]
pub struct SharedVector3<T: Copy> {
    pub x: Shared<T>,
    pub y: Shared<T>,
    pub z: Shared<T>,
}

impl<T: Copy> SharedVector3<T> {
    /// Creates the vector with the given components.
    pub fn new(x: T, y: T, z: T) -> (r: Self)
        ensures
            r.x@ == x,
            r.y@ == y,
            r.z@ == z,
    {
        SharedVector3 { x: Shared::new(x), y: Shared::new(y), z: Shared::new(z) }
    }

    /// The three components, in `(x, y, z)` order.
    pub fn get(&self) -> (r: (T, T, T))
        ensures
            r == (self.x@, self.y@, self.z@),
    {
        (self.x.get(), self.y.get(), self.z.get())
    }

    /// Replaces all three components.
    pub fn set(&mut self, x: T, y: T, z: T)
        ensures
            final(self).x@ == x,
            final(self).y@ == y,
            final(self).z@ == z,
    {
        self.x.set(x);
        self.y.set(y);
        self.z.set(z);
    }
}

impl SharedVector3<i64> {
    /// The zero vector.
    pub fn zero() -> (r: Self)
        ensures
            r.x@ == 0,
            r.y@ == 0,
            r.z@ == 0,
    {
        SharedVector3::new(0, 0, 0)
    }
}

/// A slot holding one copyable value.
#[derive(Debug, Clone, Copy)]
pub struct Shared<T: Copy>(Cell<T>);

impl<T: Copy> View for Shared<T> {
    type V = T;

    closed spec fn view(&self) -> T {
        self.0@
    }
}

impl<T: Copy> Shared<T> {
    /// Creates a slot holding `t`.
    pub fn new(t: T) -> (r: Self)
        ensures
            r@ == t,
    {
        Shared(Cell::new(t))
    }

    /// The held value.
    pub fn get(&self) -> (r: T)
        ensures
            r == self@,
    {
        self.0.get()
    }

    /// Replaces the held value with `t`.
    pub fn set(&mut self, t: T)
        ensures
            final(self)@ == t,
    {
        self.0.set(t);
    }
}

impl Shared<i64> {
    /// Equivalent to `+=` on the held value.
    pub fn add(&mut self, other: i64)
        requires
            i64::MIN <= old(self)@ + other <= i64::MAX,
        ensures
            final(self)@ == old(self)@ + other,
    {
        self.0.add(other);
    }
}

} // verus!
