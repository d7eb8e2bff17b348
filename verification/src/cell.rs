//! Small mutable slots for scene state (an object's position, rotation
//! angle, scale), updated in place between frames through `&mut` access.

use vstd::prelude::*;

verus! {

/// A container of three independently updatable components, used for
/// three-dimensional scene vectors such as a position or a rotation axis.
#[derive(Debug, Clone, Copy)]
pub struct Vector3Cell<T: Copy> {
    pub x: Cell<T>,
    pub y: Cell<T>,
    pub z: Cell<T>,
}

impl<T: Copy> Vector3Cell<T> {
    /// Creates the vector with the given components.
    pub fn new(x: T, y: T, z: T) -> (r: Self)
        ensures
            r.x@ == x,
            r.y@ == y,
            r.z@ == z,
    {
        Vector3Cell { x: Cell::new(x), y: Cell::new(y), z: Cell::new(z) }
    }

    /// The three components, in `(x, y, z)` order.
    pub fn get(&self) -> (r: (T, T, T))
        ensures
            r == (self.x@, self.y@, self.z@),
    {
        (self.x.get(), self.y.get(), self.z.get())
    }

    /// Replaces all three components.
    pub fn set(&mut self, x: T, y: T, z: T)
        ensures
            final(self).x@ == x,
            final(self).y@ == y,
            final(self).z@ == z,
    {
        self.x.set(x);
        self.y.set(y);
        self.z.set(z);
    }
}

impl Vector3Cell<i64> {
    /// The zero vector.
    pub fn zero() -> (r: Self)
        ensures
            r.x@ == 0,
            r.y@ == 0,
            r.z@ == 0,
    {
        Vector3Cell::new(0, 0, 0)
    }
}

/// A slot holding one copyable value.
#[derive(Debug, Clone, Copy)]
pub struct Cell<T: Copy>(T);

impl<T: Copy> View for Cell<T> {
    type V = T;

    closed spec fn view(&self) -> T {
        self.0
    }
}

impl<T: Copy> Cell<T> {
    /// Creates a slot holding `t`.
    pub fn new(t: T) -> (r: Self)
        ensures
            r@ == t,
    {
        Cell(t)
    }

    /// The held value.
    pub fn get(&self) -> (r: T)
        ensures
            r == self@,
    {
        self.0
    }

    /// Replaces the held value with `t`.
    pub fn set(&mut self, t: T)
        ensures
            final(self)@ == t,
    {
        self.0 = t;
    }
}

impl Cell<i64> {
    /// Equivalent to `+=` on the held value.
    pub fn add(&mut self, other: i64)
        requires
            i64::MIN <= old(self)@ + other <= i64::MAX,
        ensures
            final(self)@ == old(self)@ + other,
    {
        let t = self.get();
        self.set(t + other);
    }
}

} // verus!
