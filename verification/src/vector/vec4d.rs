//! Vectors of four components over any scalar type.
//!
//! What an operation does to the components is what the scalar type's own
//! operators do: a contract here holds for every scalar type that keeps to
//! the specification of its operators, and asks of the operands what the
//! scalar operators ask of theirs, such as the absence of overflow.

use vstd::prelude::*;
use vstd::std_specs::ops::{
    AddSpec,
    AddSpecImpl,
    DivSpec,
    DivSpecImpl,
    MulSpec,
    MulSpecImpl,
    NegSpec,
    NegSpecImpl,
    SubSpec,
    SubSpecImpl,
};
use std::ops::{Add, Div, Mul, Neg, Sub};

verus! {

/// The vector with the given components.
pub fn vec4d<T: Copy>(x: T, y: T, z: T, w: T) -> (v: Vec4d<T>)
    ensures
        v == (Vec4d { x, y, z, w }),
{
    Vec4d::new(x, y, z, w)
}

/// A vector of four components.
#[derive(Copy, Clone, Debug, PartialEq, Eq)]
pub struct Vec4d<T: Copy> {
    pub x: T,
    pub y: T,
    pub z: T,
    pub w: T,
}

impl<T: Copy> Vec4d<T> {
    /// The component with the given index.
    pub open spec fn component(self, index: int) -> T {
        if index == 0 {
            self.x
        } else if index == 1 {
            self.y
        } else if index == 2 {
            self.z
        } else {
            self.w
        }
    }

    pub fn new(x: T, y: T, z: T, w: T) -> (v: Vec4d<T>)
        ensures
            v == (Vec4d { x, y, z, w }),
    {
        Vec4d { x, y, z, w }
    }

    /// The number of components.
    pub fn dim(&self) -> (n: usize)
        ensures
            n == 4,
    {
        4
    }

    /// The component with the given index.
    pub fn index(&self, index: usize) -> (c: &T)
        requires
            index < 4,
        ensures
            *c == self.component(index as int),
    {
        if index == 0 {
            &self.x
        } else if index == 1 {
            &self.y
        } else if index == 2 {
            &self.z
        } else {
            &self.w
        }
    }
}

impl<T: Copy + Add<T, Output = T> + Mul<T, Output = T>> Vec4d<T> {
    /// The dot product of two vectors: the sum of the products of their
    /// components, taken in the order of the components.
    pub open spec fn dot_spec(self, other: Vec4d<T>) -> T {
        self.x.mul_spec(other.x).add_spec(self.y.mul_spec(other.y)).add_spec(self.z.mul_spec(other.z)).add_spec(self.w.mul_spec(other.w))
    }

    /// What the scalar operators ask of the operands of a dot product.
    pub open spec fn dot_req(self, other: Vec4d<T>) -> bool {
        &&& self.x.mul_req(other.x)
        &&& self.y.mul_req(other.y)
        &&& self.z.mul_req(other.z)
        &&& self.w.mul_req(other.w)
        &&& self.x.mul_spec(other.x).add_req(self.y.mul_spec(other.y))
        &&& self.x.mul_spec(other.x).add_spec(self.y.mul_spec(other.y)).add_req(self.z.mul_spec(other.z))
        &&& self.x.mul_spec(other.x).add_spec(self.y.mul_spec(other.y)).add_spec(self.z.mul_spec(other.z)).add_req(self.w.mul_spec(other.w))
    }

    /// The dot product of the vector with itself: the square of its length.
    pub fn norm(&self) -> (r: T)
        requires
            T::obeys_add_spec(),
            T::obeys_mul_spec(),
            self.dot_req(*self),
        ensures
            r == self.dot_spec(*self),
    {
        let mut sum: T = self.x * self.x;
        sum = sum + self.y * self.y;
        sum = sum + self.z * self.z;
        sum = sum + self.w * self.w;
        sum
    }

    /// The dot product of two vectors.
    pub fn dot_product(&self, other: Vec4d<T>) -> (r: T)
        requires
            T::obeys_add_spec(),
            T::obeys_mul_spec(),
            self.dot_req(other),
        ensures
            r == self.dot_spec(other),
    {
        let mut sum: T = self.x * other.x;
        sum = sum + self.y * other.y;
        sum = sum + self.z * other.z;
        sum = sum + self.w * other.w;
        sum
    }
}

impl<T: Copy + Add<T, Output = T>> AddSpecImpl<Vec4d<T>> for Vec4d<T> {
    open spec fn obeys_add_spec() -> bool {
        T::obeys_add_spec()
    }

    open spec fn add_req(self, other: Vec4d<T>) -> bool {
        &&& self.x.add_req(other.x)
        &&& self.y.add_req(other.y)
        &&& self.z.add_req(other.z)
        &&& self.w.add_req(other.w)
    }

    open spec fn add_spec(self, other: Vec4d<T>) -> Vec4d<T> {
        Vec4d { x: self.x.add_spec(other.x), y: self.y.add_spec(other.y), z: self.z.add_spec(other.z), w: self.w.add_spec(other.w) }
    }
}

impl<T: Copy + Add<T, Output = T>> Add<Vec4d<T>> for Vec4d<T> {
    type Output = Vec4d<T>;

    fn add(self, other: Vec4d<T>) -> (r: Vec4d<T>) {
        let x: T = self.x + other.x;
        let y: T = self.y + other.y;
        let z: T = self.z + other.z;
        let w: T = self.w + other.w;
        vec4d(x, y, z, w)
    }
}

impl<'a, T: Copy + Add<T, Output = T>> AddSpecImpl<Vec4d<T>> for &'a Vec4d<T> {
    open spec fn obeys_add_spec() -> bool {
        T::obeys_add_spec()
    }

    open spec fn add_req(self, other: Vec4d<T>) -> bool {
        &&& self.x.add_req(other.x)
        &&& self.y.add_req(other.y)
        &&& self.z.add_req(other.z)
        &&& self.w.add_req(other.w)
    }

    open spec fn add_spec(self, other: Vec4d<T>) -> Vec4d<T> {
        Vec4d { x: self.x.add_spec(other.x), y: self.y.add_spec(other.y), z: self.z.add_spec(other.z), w: self.w.add_spec(other.w) }
    }
}

impl<'a, T: Copy + Add<T, Output = T>> Add<Vec4d<T>> for &'a Vec4d<T> {
    type Output = Vec4d<T>;

    fn add(self, other: Vec4d<T>) -> (r: Vec4d<T>) {
        let x: T = self.x + other.x;
        let y: T = self.y + other.y;
        let z: T = self.z + other.z;
        let w: T = self.w + other.w;
        vec4d(x, y, z, w)
    }
}

impl<'b, T: Copy + Add<T, Output = T>> AddSpecImpl<&'b Vec4d<T>> for Vec4d<T> {
    open spec fn obeys_add_spec() -> bool {
        T::obeys_add_spec()
    }

    open spec fn add_req(self, other: &'b Vec4d<T>) -> bool {
        &&& self.x.add_req(other.x)
        &&& self.y.add_req(other.y)
        &&& self.z.add_req(other.z)
        &&& self.w.add_req(other.w)
    }

    open spec fn add_spec(self, other: &'b Vec4d<T>) -> Vec4d<T> {
        Vec4d { x: self.x.add_spec(other.x), y: self.y.add_spec(other.y), z: self.z.add_spec(other.z), w: self.w.add_spec(other.w) }
    }
}

impl<'b, T: Copy + Add<T, Output = T>> Add<&'b Vec4d<T>> for Vec4d<T> {
    type Output = Vec4d<T>;

    fn add(self, other: &'b Vec4d<T>) -> (r: Vec4d<T>) {
        let x: T = self.x + other.x;
        let y: T = self.y + other.y;
        let z: T = self.z + other.z;
        let w: T = self.w + other.w;
        vec4d(x, y, z, w)
    }
}

impl<'a, 'b, T: Copy + Add<T, Output = T>> AddSpecImpl<&'b Vec4d<T>> for &'a Vec4d<T> {
    open spec fn obeys_add_spec() -> bool {
        T::obeys_add_spec()
    }

    open spec fn add_req(self, other: &'b Vec4d<T>) -> bool {
        &&& self.x.add_req(other.x)
        &&& self.y.add_req(other.y)
        &&& self.z.add_req(other.z)
        &&& self.w.add_req(other.w)
    }

    open spec fn add_spec(self, other: &'b Vec4d<T>) -> Vec4d<T> {
        Vec4d { x: self.x.add_spec(other.x), y: self.y.add_spec(other.y), z: self.z.add_spec(other.z), w: self.w.add_spec(other.w) }
    }
}

impl<'a, 'b, T: Copy + Add<T, Output = T>> Add<&'b Vec4d<T>> for &'a Vec4d<T> {
    type Output = Vec4d<T>;

    fn add(self, other: &'b Vec4d<T>) -> (r: Vec4d<T>) {
        let x: T = self.x + other.x;
        let y: T = self.y + other.y;
        let z: T = self.z + other.z;
        let w: T = self.w + other.w;
        vec4d(x, y, z, w)
    }
}

impl<T: Copy + Sub<T, Output = T>> SubSpecImpl<Vec4d<T>> for Vec4d<T> {
    open spec fn obeys_sub_spec() -> bool {
        T::obeys_sub_spec()
    }

    open spec fn sub_req(self, other: Vec4d<T>) -> bool {
        &&& self.x.sub_req(other.x)
        &&& self.y.sub_req(other.y)
        &&& self.z.sub_req(other.z)
        &&& self.w.sub_req(other.w)
    }

    open spec fn sub_spec(self, other: Vec4d<T>) -> Vec4d<T> {
        Vec4d { x: self.x.sub_spec(other.x), y: self.y.sub_spec(other.y), z: self.z.sub_spec(other.z), w: self.w.sub_spec(other.w) }
    }
}

impl<T: Copy + Sub<T, Output = T>> Sub<Vec4d<T>> for Vec4d<T> {
    type Output = Vec4d<T>;

    fn sub(self, other: Vec4d<T>) -> (r: Vec4d<T>) {
        let x: T = self.x - other.x;
        let y: T = self.y - other.y;
        let z: T = self.z - other.z;
        let w: T = self.w - other.w;
        vec4d(x, y, z, w)
    }
}

impl<'a, T: Copy + Sub<T, Output = T>> SubSpecImpl<Vec4d<T>> for &'a Vec4d<T> {
    open spec fn obeys_sub_spec() -> bool {
        T::obeys_sub_spec()
    }

    open spec fn sub_req(self, other: Vec4d<T>) -> bool {
        &&& self.x.sub_req(other.x)
        &&& self.y.sub_req(other.y)
        &&& self.z.sub_req(other.z)
        &&& self.w.sub_req(other.w)
    }

    open spec fn sub_spec(self, other: Vec4d<T>) -> Vec4d<T> {
        Vec4d { x: self.x.sub_spec(other.x), y: self.y.sub_spec(other.y), z: self.z.sub_spec(other.z), w: self.w.sub_spec(other.w) }
    }
}

impl<'a, T: Copy + Sub<T, Output = T>> Sub<Vec4d<T>> for &'a Vec4d<T> {
    type Output = Vec4d<T>;

    fn sub(self, other: Vec4d<T>) -> (r: Vec4d<T>) {
        let x: T = self.x - other.x;
        let y: T = self.y - other.y;
        let z: T = self.z - other.z;
        let w: T = self.w - other.w;
        vec4d(x, y, z, w)
    }
}

impl<'a, 'b, T: Copy + Sub<T, Output = T>> SubSpecImpl<&'b Vec4d<T>> for &'a Vec4d<T> {
    open spec fn obeys_sub_spec() -> bool {
        T::obeys_sub_spec()
    }

    open spec fn sub_req(self, other: &'b Vec4d<T>) -> bool {
        &&& self.x.sub_req(other.x)
        &&& self.y.sub_req(other.y)
        &&& self.z.sub_req(other.z)
        &&& self.w.sub_req(other.w)
    }

    open spec fn sub_spec(self, other: &'b Vec4d<T>) -> Vec4d<T> {
        Vec4d { x: self.x.sub_spec(other.x), y: self.y.sub_spec(other.y), z: self.z.sub_spec(other.z), w: self.w.sub_spec(other.w) }
    }
}

impl<'a, 'b, T: Copy + Sub<T, Output = T>> Sub<&'b Vec4d<T>> for &'a Vec4d<T> {
    type Output = Vec4d<T>;

    fn sub(self, other: &'b Vec4d<T>) -> (r: Vec4d<T>) {
        let x: T = self.x - other.x;
        let y: T = self.y - other.y;
        let z: T = self.z - other.z;
        let w: T = self.w - other.w;
        vec4d(x, y, z, w)
    }
}

impl<T: Copy + Mul<T, Output = T>> MulSpecImpl<T> for Vec4d<T> {
    open spec fn obeys_mul_spec() -> bool {
        T::obeys_mul_spec()
    }

    open spec fn mul_req(self, scalar: T) -> bool {
        &&& self.x.mul_req(scalar)
        &&& self.y.mul_req(scalar)
        &&& self.z.mul_req(scalar)
        &&& self.w.mul_req(scalar)
    }

    open spec fn mul_spec(self, scalar: T) -> Vec4d<T> {
        Vec4d { x: self.x.mul_spec(scalar), y: self.y.mul_spec(scalar), z: self.z.mul_spec(scalar), w: self.w.mul_spec(scalar) }
    }
}

impl<T: Copy + Mul<T, Output = T>> Mul<T> for Vec4d<T> {
    type Output = Vec4d<T>;

    fn mul(self, scalar: T) -> (r: Vec4d<T>) {
        let x: T = self.x * scalar;
        let y: T = self.y * scalar;
        let z: T = self.z * scalar;
        let w: T = self.w * scalar;
        vec4d(x, y, z, w)
    }
}

impl<'a, T: Copy + Mul<T, Output = T>> MulSpecImpl<T> for &'a Vec4d<T> {
    open spec fn obeys_mul_spec() -> bool {
        T::obeys_mul_spec()
    }

    open spec fn mul_req(self, scalar: T) -> bool {
        &&& self.x.mul_req(scalar)
        &&& self.y.mul_req(scalar)
        &&& self.z.mul_req(scalar)
        &&& self.w.mul_req(scalar)
    }

    open spec fn mul_spec(self, scalar: T) -> Vec4d<T> {
        Vec4d { x: self.x.mul_spec(scalar), y: self.y.mul_spec(scalar), z: self.z.mul_spec(scalar), w: self.w.mul_spec(scalar) }
    }
}

impl<'a, T: Copy + Mul<T, Output = T>> Mul<T> for &'a Vec4d<T> {
    type Output = Vec4d<T>;

    fn mul(self, scalar: T) -> (r: Vec4d<T>) {
        let x: T = self.x * scalar;
        let y: T = self.y * scalar;
        let z: T = self.z * scalar;
        let w: T = self.w * scalar;
        vec4d(x, y, z, w)
    }
}

impl<T: Copy + Div<T, Output = T>> DivSpecImpl<T> for Vec4d<T> {
    open spec fn obeys_div_spec() -> bool {
        T::obeys_div_spec()
    }

    open spec fn div_req(self, scalar: T) -> bool {
        &&& self.x.div_req(scalar)
        &&& self.y.div_req(scalar)
        &&& self.z.div_req(scalar)
        &&& self.w.div_req(scalar)
    }

    open spec fn div_spec(self, scalar: T) -> Vec4d<T> {
        Vec4d { x: self.x.div_spec(scalar), y: self.y.div_spec(scalar), z: self.z.div_spec(scalar), w: self.w.div_spec(scalar) }
    }
}

impl<T: Copy + Div<T, Output = T>> Div<T> for Vec4d<T> {
    type Output = Vec4d<T>;

    fn div(self, scalar: T) -> (r: Vec4d<T>) {
        let x: T = self.x / scalar;
        let y: T = self.y / scalar;
        let z: T = self.z / scalar;
        let w: T = self.w / scalar;
        vec4d(x, y, z, w)
    }
}

impl<'a, T: Copy + Div<T, Output = T>> DivSpecImpl<T> for &'a Vec4d<T> {
    open spec fn obeys_div_spec() -> bool {
        T::obeys_div_spec()
    }

    open spec fn div_req(self, scalar: T) -> bool {
        &&& self.x.div_req(scalar)
        &&& self.y.div_req(scalar)
        &&& self.z.div_req(scalar)
        &&& self.w.div_req(scalar)
    }

    open spec fn div_spec(self, scalar: T) -> Vec4d<T> {
        Vec4d { x: self.x.div_spec(scalar), y: self.y.div_spec(scalar), z: self.z.div_spec(scalar), w: self.w.div_spec(scalar) }
    }
}

impl<'a, T: Copy + Div<T, Output = T>> Div<T> for &'a Vec4d<T> {
    type Output = Vec4d<T>;

    fn div(self, scalar: T) -> (r: Vec4d<T>) {
        let x: T = self.x / scalar;
        let y: T = self.y / scalar;
        let z: T = self.z / scalar;
        let w: T = self.w / scalar;
        vec4d(x, y, z, w)
    }
}

impl<T: Copy + Neg<Output = T>> NegSpecImpl for Vec4d<T> {
    open spec fn obeys_neg_spec() -> bool {
        T::obeys_neg_spec()
    }

    open spec fn neg_req(self) -> bool {
        &&& self.x.neg_req()
        &&& self.y.neg_req()
        &&& self.z.neg_req()
        &&& self.w.neg_req()
    }

    open spec fn neg_spec(self) -> Vec4d<T> {
        Vec4d { x: self.x.neg_spec(), y: self.y.neg_spec(), z: self.z.neg_spec(), w: self.w.neg_spec() }
    }
}

impl<T: Copy + Neg<Output = T>> Neg for Vec4d<T> {
    type Output = Vec4d<T>;

    fn neg(self) -> (r: Vec4d<T>) {
        let x: T = self.x.neg();
        let y: T = self.y.neg();
        let z: T = self.z.neg();
        let w: T = self.w.neg();
        vec4d(x, y, z, w)
    }
}

impl<'a, T: Copy + Neg<Output = T>> NegSpecImpl for &'a Vec4d<T> {
    open spec fn obeys_neg_spec() -> bool {
        T::obeys_neg_spec()
    }

    open spec fn neg_req(self) -> bool {
        &&& self.x.neg_req()
        &&& self.y.neg_req()
        &&& self.z.neg_req()
        &&& self.w.neg_req()
    }

    open spec fn neg_spec(self) -> Vec4d<T> {
        Vec4d { x: self.x.neg_spec(), y: self.y.neg_spec(), z: self.z.neg_spec(), w: self.w.neg_spec() }
    }
}

impl<'a, T: Copy + Neg<Output = T>> Neg for &'a Vec4d<T> {
    type Output = Vec4d<T>;

    fn neg(self) -> (r: Vec4d<T>) {
        let x: T = self.x.neg();
        let y: T = self.y.neg();
        let z: T = self.z.neg();
        let w: T = self.w.neg();
        vec4d(x, y, z, w)
    }
}

impl<T: Copy + Add<T, Output = T>> Vec4d<T> {
    /// Adds `other` to the vector, component by component.
    pub fn add_assign(&mut self, other: Vec4d<T>)
        requires
            T::obeys_add_spec(),
            old(self).x.add_req(other.x),
            old(self).y.add_req(other.y),
            old(self).z.add_req(other.z),
            old(self).w.add_req(other.w),
        ensures
            final(self).x == old(self).x.add_spec(other.x),
            final(self).y == old(self).y.add_spec(other.y),
            final(self).z == old(self).z.add_spec(other.z),
            final(self).w == old(self).w.add_spec(other.w),
    {
        self.x = self.x + other.x;
        self.y = self.y + other.y;
        self.z = self.z + other.z;
        self.w = self.w + other.w;
    }
}

impl<T: Copy + Sub<T, Output = T>> Vec4d<T> {
    /// Subtracts `other` from the vector, component by component.
    pub fn sub_assign(&mut self, other: Vec4d<T>)
        requires
            T::obeys_sub_spec(),
            old(self).x.sub_req(other.x),
            old(self).y.sub_req(other.y),
            old(self).z.sub_req(other.z),
            old(self).w.sub_req(other.w),
        ensures
            final(self).x == old(self).x.sub_spec(other.x),
            final(self).y == old(self).y.sub_spec(other.y),
            final(self).z == old(self).z.sub_spec(other.z),
            final(self).w == old(self).w.sub_spec(other.w),
    {
        self.x = self.x - other.x;
        self.y = self.y - other.y;
        self.z = self.z - other.z;
        self.w = self.w - other.w;
    }
}

impl<T: Copy + Mul<T, Output = T>> Vec4d<T> {
    /// Multiplies every component by `scalar`.
    pub fn mul_assign(&mut self, scalar: T)
        requires
            T::obeys_mul_spec(),
            old(self).x.mul_req(scalar),
            old(self).y.mul_req(scalar),
            old(self).z.mul_req(scalar),
            old(self).w.mul_req(scalar),
        ensures
            final(self).x == old(self).x.mul_spec(scalar),
            final(self).y == old(self).y.mul_spec(scalar),
            final(self).z == old(self).z.mul_spec(scalar),
            final(self).w == old(self).w.mul_spec(scalar),
    {
        self.x = self.x * scalar;
        self.y = self.y * scalar;
        self.z = self.z * scalar;
        self.w = self.w * scalar;
    }
}

impl<T: Copy + Div<T, Output = T>> Vec4d<T> {
    /// Divides every component by `scalar`.
    pub fn div_assign(&mut self, scalar: T)
        requires
            T::obeys_div_spec(),
            old(self).x.div_req(scalar),
            old(self).y.div_req(scalar),
            old(self).z.div_req(scalar),
            old(self).w.div_req(scalar),
        ensures
            final(self).x == old(self).x.div_spec(scalar),
            final(self).y == old(self).y.div_spec(scalar),
            final(self).z == old(self).z.div_spec(scalar),
            final(self).w == old(self).w.div_spec(scalar),
    {
        self.x = self.x / scalar;
        self.y = self.y / scalar;
        self.z = self.z / scalar;
        self.w = self.w / scalar;
    }
}

impl<T: Copy + Add<T, Output = T> + Mul<T, Output = T> + Div<T, Output = T>> Vec4d<T> {
    /// The vector divided by its dot product with itself.
    pub fn normalize(&self) -> (r: Vec4d<T>)
        requires
            T::obeys_add_spec(),
            T::obeys_mul_spec(),
            T::obeys_div_spec(),
            self.dot_req(*self),
            self.x.div_req(self.dot_spec(*self)),
            self.y.div_req(self.dot_spec(*self)),
            self.z.div_req(self.dot_spec(*self)),
            self.w.div_req(self.dot_spec(*self)),
        ensures
            r.x == self.x.div_spec(self.dot_spec(*self)),
            r.y == self.y.div_spec(self.dot_spec(*self)),
            r.z == self.z.div_spec(self.dot_spec(*self)),
            r.w == self.w.div_spec(self.dot_spec(*self)),
    {
        let norm: T = self.norm();
        self / norm
    }
}

} // verus!
