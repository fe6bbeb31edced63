//! Plain two- and three-component vectors.
use vstd::prelude::*;

verus! {

/// A two-component vector.
#[derive(Clone, Copy, Debug)]
pub struct Vector2<T> {
    pub x: T,
    pub y: T,
}

/// A three-component vector.
#[derive(Clone, Copy, Debug)]
pub struct Vector3<T> {
    pub x: T,
    pub y: T,
    pub z: T,
}

impl<T> Vector2<T> {
    pub fn new(x: T, y: T) -> (v: Self)
        ensures
            v.x == x,
            v.y == y,
    {
        Vector2 { x, y }
    }
}

impl<T: Copy> Vector2<T> {
    /// A vector whose components all equal `v`.
    pub fn filled(v: T) -> (r: Self)
        ensures
            r.x == v,
            r.y == v,
    {
        Self::new(v, v)
    }
}

impl<T> Vector3<T> {
    pub fn new(x: T, y: T, z: T) -> (v: Self)
        ensures
            v.x == x,
            v.y == y,
            v.z == z,
    {
        Vector3 { x, y, z }
    }
}

impl<T: Copy> Vector3<T> {
    /// A vector whose components all equal `v`.
    pub fn filled(v: T) -> (r: Self)
        ensures
            r.x == v,
            r.y == v,
            r.z == v,
    {
        Self::new(v, v, v)
    }
}

/// Extends a two-component vector with a third component `z`.
pub fn to_vec3<T: Copy>(vec2: &Vector2<T>, z: T) -> (v: Vector3<T>)
    ensures
        v.x == vec2.x,
        v.y == vec2.y,
        v.z == z,
{
    Vector3::<T>::new(vec2.x, vec2.y, z)
}

} // verus!
