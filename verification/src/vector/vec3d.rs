//! Vectors of three components over any scalar type.
//!
//! What an operation does to the components is what the scalar type's own
//! operators do: a contract here holds for every scalar type that keeps to
//! the specification of its operators, and asks of the operands what the
//! scalar operators ask of theirs, such as the absence of overflow.

use vstd::prelude::*;
use vstd::std_specs::ops::{
    AddSpec,
    AddSpecImpl,
    DivSpec,
    DivSpecImpl,
    MulSpec,
    MulSpecImpl,
    NegSpec,
    NegSpecImpl,
    SubSpec,
    SubSpecImpl,
};
use std::ops::{Add, Div, Mul, Neg, Sub};

verus! {

/// The vector with the given components.
pub fn vec3d<T: Copy>(x: T, y: T, z: T) -> (v: Vec3d<T>)
    ensures
        v == (Vec3d { x, y, z }),
{
    Vec3d::new(x, y, z)
}

/// A vector of three components.
#[derive(Copy, Clone, Debug, PartialEq, Eq)]
pub struct Vec3d<T: Copy> {
    pub x: T,
    pub y: T,
    pub z: T,
}

impl<T: Copy> Vec3d<T> {
    /// The component with the given index.
    pub open spec fn component(self, index: int) -> T {
        if index == 0 {
            self.x
        } else if index == 1 {
            self.y
        } else {
            self.z
        }
    }

    pub fn new(x: T, y: T, z: T) -> (v: Vec3d<T>)
        ensures
            v == (Vec3d { x, y, z }),
    {
        Vec3d { x, y, z }
    }

    /// The number of components.
    pub fn dim(&self) -> (n: usize)
        ensures
            n == 3,
    {
        3
    }

    /// The component with the given index.
    pub fn index(&self, index: usize) -> (c: &T)
        requires
            index < 3,
        ensures
            *c == self.component(index as int),
    {
        if index == 0 {
            &self.x
        } else if index == 1 {
            &self.y
        } else {
            &self.z
        }
    }
}

impl<T: Copy + Add<T, Output = T> + Mul<T, Output = T>> Vec3d<T> {
    /// The dot product of two vectors: the sum of the products of their
    /// components, taken in the order of the components.
    pub open spec fn dot_spec(self, other: Vec3d<T>) -> T {
        self.x.mul_spec(other.x).add_spec(self.y.mul_spec(other.y)).add_spec(self.z.mul_spec(other.z))
    }

    /// What the scalar operators ask of the operands of a dot product.
    pub open spec fn dot_req(self, other: Vec3d<T>) -> bool {
        &&& self.x.mul_req(other.x)
        &&& self.y.mul_req(other.y)
        &&& self.z.mul_req(other.z)
        &&& self.x.mul_spec(other.x).add_req(self.y.mul_spec(other.y))
        &&& self.x.mul_spec(other.x).add_spec(self.y.mul_spec(other.y)).add_req(self.z.mul_spec(other.z))
    }

    /// The dot product of the vector with itself: the square of its length.
    pub fn norm(&self) -> (r: T)
        requires
            T::obeys_add_spec(),
            T::obeys_mul_spec(),
            self.dot_req(*self),
        ensures
            r == self.dot_spec(*self),
    {
        let mut sum: T = self.x * self.x;
        sum = sum + self.y * self.y;
        sum = sum + self.z * self.z;
        sum
    }

    /// The dot product of two vectors.
    pub fn dot_product(&self, other: Vec3d<T>) -> (r: T)
        requires
            T::obeys_add_spec(),
            T::obeys_mul_spec(),
            self.dot_req(other),
        ensures
            r == self.dot_spec(other),
    {
        let mut sum: T = self.x * other.x;
        sum = sum + self.y * other.y;
        sum = sum + self.z * other.z;
        sum
    }
}

impl<T: Copy + Add<T, Output = T>> AddSpecImpl<Vec3d<T>> for Vec3d<T> {
    open spec fn obeys_add_spec() -> bool {
        T::obeys_add_spec()
    }

    open spec fn add_req(self, other: Vec3d<T>) -> bool {
        &&& self.x.add_req(other.x)
        &&& self.y.add_req(other.y)
        &&& self.z.add_req(other.z)
    }

    open spec fn add_spec(self, other: Vec3d<T>) -> Vec3d<T> {
        Vec3d { x: self.x.add_spec(other.x), y: self.y.add_spec(other.y), z: self.z.add_spec(other.z) }
    }
}

impl<T: Copy + Add<T, Output = T>> Add<Vec3d<T>> for Vec3d<T> {
    type Output = Vec3d<T>;

    fn add(self, other: Vec3d<T>) -> (r: Vec3d<T>) {
        let x: T = self.x + other.x;
        let y: T = self.y + other.y;
        let z: T = self.z + other.z;
        vec3d(x, y, z)
    }
}

impl<'a, T: Copy + Add<T, Output = T>> AddSpecImpl<Vec3d<T>> for &'a Vec3d<T> {
    open spec fn obeys_add_spec() -> bool {
        T::obeys_add_spec()
    }

    open spec fn add_req(self, other: Vec3d<T>) -> bool {
        &&& self.x.add_req(other.x)
        &&& self.y.add_req(other.y)
        &&& self.z.add_req(other.z)
    }

    open spec fn add_spec(self, other: Vec3d<T>) -> Vec3d<T> {
        Vec3d { x: self.x.add_spec(other.x), y: self.y.add_spec(other.y), z: self.z.add_spec(other.z) }
    }
}

impl<'a, T: Copy + Add<T, Output = T>> Add<Vec3d<T>> for &'a Vec3d<T> {
    type Output = Vec3d<T>;

    fn add(self, other: Vec3d<T>) -> (r: Vec3d<T>) {
        let x: T = self.x + other.x;
        let y: T = self.y + other.y;
        let z: T = self.z + other.z;
        vec3d(x, y, z)
    }
}

impl<'b, T: Copy + Add<T, Output = T>> AddSpecImpl<&'b Vec3d<T>> for Vec3d<T> {
    open spec fn obeys_add_spec() -> bool {
        T::obeys_add_spec()
    }

    open spec fn add_req(self, other: &'b Vec3d<T>) -> bool {
        &&& self.x.add_req(other.x)
        &&& self.y.add_req(other.y)
        &&& self.z.add_req(other.z)
    }

    open spec fn add_spec(self, other: &'b Vec3d<T>) -> Vec3d<T> {
        Vec3d { x: self.x.add_spec(other.x), y: self.y.add_spec(other.y), z: self.z.add_spec(other.z) }
    }
}

impl<'b, T: Copy + Add<T, Output = T>> Add<&'b Vec3d<T>> for Vec3d<T> {
    type Output = Vec3d<T>;

    fn add(self, other: &'b Vec3d<T>) -> (r: Vec3d<T>) {
        let x: T = self.x + other.x;
        let y: T = self.y + other.y;
        let z: T = self.z + other.z;
        vec3d(x, y, z)
    }
}

impl<'a, 'b, T: Copy + Add<T, Output = T>> AddSpecImpl<&'b Vec3d<T>> for &'a Vec3d<T> {
    open spec fn obeys_add_spec() -> bool {
        T::obeys_add_spec()
    }

    open spec fn add_req(self, other: &'b Vec3d<T>) -> bool {
        &&& self.x.add_req(other.x)
        &&& self.y.add_req(other.y)
        &&& self.z.add_req(other.z)
    }

    open spec fn add_spec(self, other: &'b Vec3d<T>) -> Vec3d<T> {
        Vec3d { x: self.x.add_spec(other.x), y: self.y.add_spec(other.y), z: self.z.add_spec(other.z) }
    }
}

impl<'a, 'b, T: Copy + Add<T, Output = T>> Add<&'b Vec3d<T>> for &'a Vec3d<T> {
    type Output = Vec3d<T>;

    fn add(self, other: &'b Vec3d<T>) -> (r: Vec3d<T>) {
        let x: T = self.x + other.x;
        let y: T = self.y + other.y;
        let z: T = self.z + other.z;
        vec3d(x, y, z)
    }
}

impl<T: Copy + Sub<T, Output = T>> SubSpecImpl<Vec3d<T>> for Vec3d<T> {
    open spec fn obeys_sub_spec() -> bool {
        T::obeys_sub_spec()
    }

    open spec fn sub_req(self, other: Vec3d<T>) -> bool {
        &&& self.x.sub_req(other.x)
        &&& self.y.sub_req(other.y)
        &&& self.z.sub_req(other.z)
    }

    open spec fn sub_spec(self, other: Vec3d<T>) -> Vec3d<T> {
        Vec3d { x: self.x.sub_spec(other.x), y: self.y.sub_spec(other.y), z: self.z.sub_spec(other.z) }
    }
}

impl<T: Copy + Sub<T, Output = T>> Sub<Vec3d<T>> for Vec3d<T> {
    type Output = Vec3d<T>;

    fn sub(self, other: Vec3d<T>) -> (r: Vec3d<T>) {
        let x: T = self.x - other.x;
        let y: T = self.y - other.y;
        let z: T = self.z - other.z;
        vec3d(x, y, z)
    }
}

impl<'a, T: Copy + Sub<T, Output = T>> SubSpecImpl<Vec3d<T>> for &'a Vec3d<T> {
    open spec fn obeys_sub_spec() -> bool {
        T::obeys_sub_spec()
    }

    open spec fn sub_req(self, other: Vec3d<T>) -> bool {
        &&& self.x.sub_req(other.x)
        &&& self.y.sub_req(other.y)
        &&& self.z.sub_req(other.z)
    }

    open spec fn sub_spec(self, other: Vec3d<T>) -> Vec3d<T> {
        Vec3d { x: self.x.sub_spec(other.x), y: self.y.sub_spec(other.y), z: self.z.sub_spec(other.z) }
    }
}

impl<'a, T: Copy + Sub<T, Output = T>> Sub<Vec3d<T>> for &'a Vec3d<T> {
    type Output = Vec3d<T>;

    fn sub(self, other: Vec3d<T>) -> (r: Vec3d<T>) {
        let x: T = self.x - other.x;
        let y: T = self.y - other.y;
        let z: T = self.z - other.z;
        vec3d(x, y, z)
    }
}

impl<'a, 'b, T: Copy + Sub<T, Output = T>> SubSpecImpl<&'b Vec3d<T>> for &'a Vec3d<T> {
    open spec fn obeys_sub_spec() -> bool {
        T::obeys_sub_spec()
    }

    open spec fn sub_req(self, other: &'b Vec3d<T>) -> bool {
        &&& self.x.sub_req(other.x)
        &&& self.y.sub_req(other.y)
        &&& self.z.sub_req(other.z)
    }

    open spec fn sub_spec(self, other: &'b Vec3d<T>) -> Vec3d<T> {
        Vec3d { x: self.x.sub_spec(other.x), y: self.y.sub_spec(other.y), z: self.z.sub_spec(other.z) }
    }
}

impl<'a, 'b, T: Copy + Sub<T, Output = T>> Sub<&'b Vec3d<T>> for &'a Vec3d<T> {
    type Output = Vec3d<T>;

    fn sub(self, other: &'b Vec3d<T>) -> (r: Vec3d<T>) {
        let x: T = self.x - other.x;
        let y: T = self.y - other.y;
        let z: T = self.z - other.z;
        vec3d(x, y, z)
    }
}

impl<T: Copy + Mul<T, Output = T>> MulSpecImpl<T> for Vec3d<T> {
    open spec fn obeys_mul_spec() -> bool {
        T::obeys_mul_spec()
    }

    open spec fn mul_req(self, scalar: T) -> bool {
        &&& self.x.mul_req(scalar)
        &&& self.y.mul_req(scalar)
        &&& self.z.mul_req(scalar)
    }

    open spec fn mul_spec(self, scalar: T) -> Vec3d<T> {
        Vec3d { x: self.x.mul_spec(scalar), y: self.y.mul_spec(scalar), z: self.z.mul_spec(scalar) }
    }
}

impl<T: Copy + Mul<T, Output = T>> Mul<T> for Vec3d<T> {
    type Output = Vec3d<T>;

    fn mul(self, scalar: T) -> (r: Vec3d<T>) {
        let x: T = self.x * scalar;
        let y: T = self.y * scalar;
        let z: T = self.z * scalar;
        vec3d(x, y, z)
    }
}

impl<'a, T: Copy + Mul<T, Output = T>> MulSpecImpl<T> for &'a Vec3d<T> {
    open spec fn obeys_mul_spec() -> bool {
        T::obeys_mul_spec()
    }

    open spec fn mul_req(self, scalar: T) -> bool {
        &&& self.x.mul_req(scalar)
        &&& self.y.mul_req(scalar)
        &&& self.z.mul_req(scalar)
    }

    open spec fn mul_spec(self, scalar: T) -> Vec3d<T> {
        Vec3d { x: self.x.mul_spec(scalar), y: self.y.mul_spec(scalar), z: self.z.mul_spec(scalar) }
    }
}

impl<'a, T: Copy + Mul<T, Output = T>> Mul<T> for &'a Vec3d<T> {
    type Output = Vec3d<T>;

    fn mul(self, scalar: T) -> (r: Vec3d<T>) {
        let x: T = self.x * scalar;
        let y: T = self.y * scalar;
        let z: T = self.z * scalar;
        vec3d(x, y, z)
    }
}

impl<T: Copy + Div<T, Output = T>> DivSpecImpl<T> for Vec3d<T> {
    open spec fn obeys_div_spec() -> bool {
        T::obeys_div_spec()
    }

    open spec fn div_req(self, scalar: T) -> bool {
        &&& self.x.div_req(scalar)
        &&& self.y.div_req(scalar)
        &&& self.z.div_req(scalar)
    }

    open spec fn div_spec(self, scalar: T) -> Vec3d<T> {
        Vec3d { x: self.x.div_spec(scalar), y: self.y.div_spec(scalar), z: self.z.div_spec(scalar) }
    }
}

impl<T: Copy + Div<T, Output = T>> Div<T> for Vec3d<T> {
    type Output = Vec3d<T>;

    fn div(self, scalar: T) -> (r: Vec3d<T>) {
        let x: T = self.x / scalar;
        let y: T = self.y / scalar;
        let z: T = self.z / scalar;
        vec3d(x, y, z)
    }
}

impl<'a, T: Copy + Div<T, Output = T>> DivSpecImpl<T> for &'a Vec3d<T> {
    open spec fn obeys_div_spec() -> bool {
        T::obeys_div_spec()
    }

    open spec fn div_req(self, scalar: T) -> bool {
        &&& self.x.div_req(scalar)
        &&& self.y.div_req(scalar)
        &&& self.z.div_req(scalar)
    }

    open spec fn div_spec(self, scalar: T) -> Vec3d<T> {
        Vec3d { x: self.x.div_spec(scalar), y: self.y.div_spec(scalar), z: self.z.div_spec(scalar) }
    }
}

impl<'a, T: Copy + Div<T, Output = T>> Div<T> for &'a Vec3d<T> {
    type Output = Vec3d<T>;

    fn div(self, scalar: T) -> (r: Vec3d<T>) {
        let x: T = self.x / scalar;
        let y: T = self.y / scalar;
        let z: T = self.z / scalar;
        vec3d(x, y, z)
    }
}

impl<T: Copy + Neg<Output = T>> NegSpecImpl for Vec3d<T> {
    open spec fn obeys_neg_spec() -> bool {
        T::obeys_neg_spec()
    }

    open spec fn neg_req(self) -> bool {
        &&& self.x.neg_req()
        &&& self.y.neg_req()
        &&& self.z.neg_req()
    }

    open spec fn neg_spec(self) -> Vec3d<T> {
        Vec3d { x: self.x.neg_spec(), y: self.y.neg_spec(), z: self.z.neg_spec() }
    }
}

impl<T: Copy + Neg<Output = T>> Neg for Vec3d<T> {
    type Output = Vec3d<T>;

    fn neg(self) -> (r: Vec3d<T>) {
        let x: T = self.x.neg();
        let y: T = self.y.neg();
        let z: T = self.z.neg();
        vec3d(x, y, z)
    }
}

impl<'a, T: Copy + Neg<Output = T>> NegSpecImpl for &'a Vec3d<T> {
    open spec fn obeys_neg_spec() -> bool {
        T::obeys_neg_spec()
    }

    open spec fn neg_req(self) -> bool {
        &&& self.x.neg_req()
        &&& self.y.neg_req()
        &&& self.z.neg_req()
    }

    open spec fn neg_spec(self) -> Vec3d<T> {
        Vec3d { x: self.x.neg_spec(), y: self.y.neg_spec(), z: self.z.neg_spec() }
    }
}

impl<'a, T: Copy + Neg<Output = T>> Neg for &'a Vec3d<T> {
    type Output = Vec3d<T>;

    fn neg(self) -> (r: Vec3d<T>) {
        let x: T = self.x.neg();
        let y: T = self.y.neg();
        let z: T = self.z.neg();
        vec3d(x, y, z)
    }
}

impl<T: Copy + Add<T, Output = T>> Vec3d<T> {
    /// Adds `other` to the vector, component by component.
    pub fn add_assign(&mut self, other: Vec3d<T>)
        requires
            T::obeys_add_spec(),
            old(self).x.add_req(other.x),
            old(self).y.add_req(other.y),
            old(self).z.add_req(other.z),
        ensures
            final(self).x == old(self).x.add_spec(other.x),
            final(self).y == old(self).y.add_spec(other.y),
            final(self).z == old(self).z.add_spec(other.z),
    {
        self.x = self.x + other.x;
        self.y = self.y + other.y;
        self.z = self.z + other.z;
    }
}

impl<T: Copy + Sub<T, Output = T>> Vec3d<T> {
    /// Subtracts `other` from the vector, component by component.
    pub fn sub_assign(&mut self, other: Vec3d<T>)
        requires
            T::obeys_sub_spec(),
            old(self).x.sub_req(other.x),
            old(self).y.sub_req(other.y),
            old(self).z.sub_req(other.z),
        ensures
            final(self).x == old(self).x.sub_spec(other.x),
            final(self).y == old(self).y.sub_spec(other.y),
            final(self).z == old(self).z.sub_spec(other.z),
    {
        self.x = self.x - other.x;
        self.y = self.y - other.y;
        self.z = self.z - other.z;
    }
}

impl<T: Copy + Mul<T, Output = T>> Vec3d<T> {
    /// Multiplies every component by `scalar`.
    pub fn mul_assign(&mut self, scalar: T)
        requires
            T::obeys_mul_spec(),
            old(self).x.mul_req(scalar),
            old(self).y.mul_req(scalar),
            old(self).z.mul_req(scalar),
        ensures
            final(self).x == old(self).x.mul_spec(scalar),
            final(self).y == old(self).y.mul_spec(scalar),
            final(self).z == old(self).z.mul_spec(scalar),
    {
        self.x = self.x * scalar;
        self.y = self.y * scalar;
        self.z = self.z * scalar;
    }
}

impl<T: Copy + Div<T, Output = T>> Vec3d<T> {
    /// Divides every component by `scalar`.
    pub fn div_assign(&mut self, scalar: T)
        requires
            T::obeys_div_spec(),
            old(self).x.div_req(scalar),
            old(self).y.div_req(scalar),
            old(self).z.div_req(scalar),
        ensures
            final(self).x == old(self).x.div_spec(scalar),
            final(self).y == old(self).y.div_spec(scalar),
            final(self).z == old(self).z.div_spec(scalar),
    {
        self.x = self.x / scalar;
        self.y = self.y / scalar;
        self.z = self.z / scalar;
    }
}

} // verus!
