//! Small verified operations on mutable state: writing through a mutable
//! reference, exchanging two values, and updating the fields of a struct
//! through a mutable binding. Each contract relates the value after the
//! call (`final`) to the value before it (`old`).

use vstd::prelude::*;

verus! {

/// Overwrite the value behind a mutable reference.
pub fn store(target: &mut i32, value: i32)
    ensures
        *final(target) == value,
{
    *target = value;
}

/// Overwrite the value behind a mutable reference and hand back
/// what was there before.
pub fn replace(target: &mut i32, value: i32) -> (prev: i32)
    ensures
        *final(target) == value,
        prev == *old(target),
{
    let prev = *target;
    *target = value;
    prev
}

/// Exchange the values behind two mutable references.
pub fn swap(a: &mut i32, b: &mut i32)
    ensures
        *final(a) == *old(b),
        *final(b) == *old(a),
{
    let tmp = *a;
    *a = *b;
    *b = tmp;
}

/// A point in the plane. Whether a value of it can change is a property
/// of the binding that holds it, not of the individual fields.
#[derive(Clone, Copy, Debug, PartialEq, Eq, Structural)]
pub struct Point {
    pub x: i32,
    pub y: i32,
}

impl Point {
    /// Build a point from its two coordinates.
    pub fn new(x: i32, y: i32) -> (p: Point)
        ensures
            p.x == x,
            p.y == y,
    {
        Point { x, y }
    }

    /// Set the first coordinate; the second is untouched.
    pub fn set_x(&mut self, value: i32)
        ensures
            final(self).x == value,
            final(self).y == old(self).y,
    {
        self.x = value;
    }

    /// Set the second coordinate; the first is untouched.
    pub fn set_y(&mut self, value: i32)
        ensures
            final(self).y == value,
            final(self).x == old(self).x,
    {
        self.y = value;
    }
}

/// A `mut` binding on a by-value parameter: reassigning it changes only
/// the local copy, so nothing of the caller's state is affected.
pub fn foo(mut x: i32) {
    x = 0;
    assert(x == 0);
}

} // verus!
