//! Vectors of two components over any scalar type.
//!
//! What an operation does to the components is what the scalar type's own
//! operators do: a contract here holds for every scalar type that keeps to
//! the specification of its operators, and asks of the operands what the
//! scalar operators ask of theirs, such as the absence of overflow.

use vstd::prelude::*;
use vstd::std_specs::ops::{
    AddSpec,
    AddSpecImpl,
    DivSpec,
    DivSpecImpl,
    MulSpec,
    MulSpecImpl,
    NegSpec,
    NegSpecImpl,
    SubSpec,
    SubSpecImpl,
};
use std::ops::{Add, Div, Mul, Neg, Sub};

verus! {

/// The vector with the given components.
pub fn vec2d<T: Copy>(x: T, y: T) -> (v: Vec2d<T>)
    ensures
        v == (Vec2d { x, y }),
{
    Vec2d::new(x, y)
}

/// A vector of two components.
#[derive(Copy, Clone, Debug, PartialEq, Eq)]
pub struct Vec2d<T: Copy> {
    pub x: T,
    pub y: T,
}

impl<T: Copy> Vec2d<T> {
    /// The component with the given index.
    pub open spec fn component(self, index: int) -> T {
        if index == 0 {
            self.x
        } else {
            self.y
        }
    }

    pub fn new(x: T, y: T) -> (v: Vec2d<T>)
        ensures
            v == (Vec2d { x, y }),
    {
        Vec2d { x, y }
    }

    /// The number of components.
    pub fn dim(&self) -> (n: usize)
        ensures
            n == 2,
    {
        2
    }

    /// The component with the given index.
    pub fn index(&self, index: usize) -> (c: &T)
        requires
            index < 2,
        ensures
            *c == self.component(index as int),
    {
        if index == 0 {
            &self.x
        } else {
            &self.y
        }
    }
}

impl<T: Copy + Add<T, Output = T> + Mul<T, Output = T>> Vec2d<T> {
    /// The dot product of two vectors: the sum of the products of their
    /// components, taken in the order of the components.
    pub open spec fn dot_spec(self, other: Vec2d<T>) -> T {
        self.x.mul_spec(other.x).add_spec(self.y.mul_spec(other.y))
    }

    /// What the scalar operators ask of the operands of a dot product.
    pub open spec fn dot_req(self, other: Vec2d<T>) -> bool {
        &&& self.x.mul_req(other.x)
        &&& self.y.mul_req(other.y)
        &&& self.x.mul_spec(other.x).add_req(self.y.mul_spec(other.y))
    }

    /// The dot product of the vector with itself: the square of its length.
    pub fn norm(&self) -> (r: T)
        requires
            T::obeys_add_spec(),
            T::obeys_mul_spec(),
            self.dot_req(*self),
        ensures
            r == self.dot_spec(*self),
    {
        let mut sum: T = self.x * self.x;
        sum = sum + self.y * self.y;
        sum
    }

    /// The dot product of two vectors.
    pub fn dot_product(&self, other: Vec2d<T>) -> (r: T)
        requires
            T::obeys_add_spec(),
            T::obeys_mul_spec(),
            self.dot_req(other),
        ensures
            r == self.dot_spec(other),
    {
        let mut sum: T = self.x * other.x;
        sum = sum + self.y * other.y;
        sum
    }
}

impl<T: Copy + Add<T, Output = T>> AddSpecImpl<Vec2d<T>> for Vec2d<T> {
    open spec fn obeys_add_spec() -> bool {
        T::obeys_add_spec()
    }

    open spec fn add_req(self, other: Vec2d<T>) -> bool {
        &&& self.x.add_req(other.x)
        &&& self.y.add_req(other.y)
    }

    open spec fn add_spec(self, other: Vec2d<T>) -> Vec2d<T> {
        Vec2d { x: self.x.add_spec(other.x), y: self.y.add_spec(other.y) }
    }
}

impl<T: Copy + Add<T, Output = T>> Add<Vec2d<T>> for Vec2d<T> {
    type Output = Vec2d<T>;

    fn add(self, other: Vec2d<T>) -> (r: Vec2d<T>) {
        let x: T = self.x + other.x;
        let y: T = self.y + other.y;
        vec2d(x, y)
    }
}

impl<'a, T: Copy + Add<T, Output = T>> AddSpecImpl<Vec2d<T>> for &'a Vec2d<T> {
    open spec fn obeys_add_spec() -> bool {
        T::obeys_add_spec()
    }

    open spec fn add_req(self, other: Vec2d<T>) -> bool {
        &&& self.x.add_req(other.x)
        &&& self.y.add_req(other.y)
    }

    open spec fn add_spec(self, other: Vec2d<T>) -> Vec2d<T> {
        Vec2d { x: self.x.add_spec(other.x), y: self.y.add_spec(other.y) }
    }
}

impl<'a, T: Copy + Add<T, Output = T>> Add<Vec2d<T>> for &'a Vec2d<T> {
    type Output = Vec2d<T>;

    fn add(self, other: Vec2d<T>) -> (r: Vec2d<T>) {
        let x: T = self.x + other.x;
        let y: T = self.y + other.y;
        vec2d(x, y)
    }
}

impl<'b, T: Copy + Add<T, Output = T>> AddSpecImpl<&'b Vec2d<T>> for Vec2d<T> {
    open spec fn obeys_add_spec() -> bool {
        T::obeys_add_spec()
    }

    open spec fn add_req(self, other: &'b Vec2d<T>) -> bool {
        &&& self.x.add_req(other.x)
        &&& self.y.add_req(other.y)
    }

    open spec fn add_spec(self, other: &'b Vec2d<T>) -> Vec2d<T> {
        Vec2d { x: self.x.add_spec(other.x), y: self.y.add_spec(other.y) }
    }
}

impl<'b, T: Copy + Add<T, Output = T>> Add<&'b Vec2d<T>> for Vec2d<T> {
    type Output = Vec2d<T>;

    fn add(self, other: &'b Vec2d<T>) -> (r: Vec2d<T>) {
        let x: T = self.x + other.x;
        let y: T = self.y + other.y;
        vec2d(x, y)
    }
}

impl<'a, 'b, T: Copy + Add<T, Output = T>> AddSpecImpl<&'b Vec2d<T>> for &'a Vec2d<T> {
    open spec fn obeys_add_spec() -> bool {
        T::obeys_add_spec()
    }

    open spec fn add_req(self, other: &'b Vec2d<T>) -> bool {
        &&& self.x.add_req(other.x)
        &&& self.y.add_req(other.y)
    }

    open spec fn add_spec(self, other: &'b Vec2d<T>) -> Vec2d<T> {
        Vec2d { x: self.x.add_spec(other.x), y: self.y.add_spec(other.y) }
    }
}

impl<'a, 'b, T: Copy + Add<T, Output = T>> Add<&'b Vec2d<T>> for &'a Vec2d<T> {
    type Output = Vec2d<T>;

    fn add(self, other: &'b Vec2d<T>) -> (r: Vec2d<T>) {
        let x: T = self.x + other.x;
        let y: T = self.y + other.y;
        vec2d(x, y)
    }
}

impl<T: Copy + Sub<T, Output = T>> SubSpecImpl<Vec2d<T>> for Vec2d<T> {
    open spec fn obeys_sub_spec() -> bool {
        T::obeys_sub_spec()
    }

    open spec fn sub_req(self, other: Vec2d<T>) -> bool {
        &&& self.x.sub_req(other.x)
        &&& self.y.sub_req(other.y)
    }

    open spec fn sub_spec(self, other: Vec2d<T>) -> Vec2d<T> {
        Vec2d { x: self.x.sub_spec(other.x), y: self.y.sub_spec(other.y) }
    }
}

impl<T: Copy + Sub<T, Output = T>> Sub<Vec2d<T>> for Vec2d<T> {
    type Output = Vec2d<T>;

    fn sub(self, other: Vec2d<T>) -> (r: Vec2d<T>) {
        let x: T = self.x - other.x;
        let y: T = self.y - other.y;
        vec2d(x, y)
    }
}

impl<'a, T: Copy + Sub<T, Output = T>> SubSpecImpl<Vec2d<T>> for &'a Vec2d<T> {
    open spec fn obeys_sub_spec() -> bool {
        T::obeys_sub_spec()
    }

    open spec fn sub_req(self, other: Vec2d<T>) -> bool {
        &&& self.x.sub_req(other.x)
        &&& self.y.sub_req(other.y)
    }

    open spec fn sub_spec(self, other: Vec2d<T>) -> Vec2d<T> {
        Vec2d { x: self.x.sub_spec(other.x), y: self.y.sub_spec(other.y) }
    }
}

impl<'a, T: Copy + Sub<T, Output = T>> Sub<Vec2d<T>> for &'a Vec2d<T> {
    type Output = Vec2d<T>;

    fn sub(self, other: Vec2d<T>) -> (r: Vec2d<T>) {
        let x: T = self.x - other.x;
        let y: T = self.y - other.y;
        vec2d(x, y)
    }
}

impl<'a, 'b, T: Copy + Sub<T, Output = T>> SubSpecImpl<&'b Vec2d<T>> for &'a Vec2d<T> {
    open spec fn obeys_sub_spec() -> bool {
        T::obeys_sub_spec()
    }

    open spec fn sub_req(self, other: &'b Vec2d<T>) -> bool {
        &&& self.x.sub_req(other.x)
        &&& self.y.sub_req(other.y)
    }

    open spec fn sub_spec(self, other: &'b Vec2d<T>) -> Vec2d<T> {
        Vec2d { x: self.x.sub_spec(other.x), y: self.y.sub_spec(other.y) }
    }
}

impl<'a, 'b, T: Copy + Sub<T, Output = T>> Sub<&'b Vec2d<T>> for &'a Vec2d<T> {
    type Output = Vec2d<T>;

    fn sub(self, other: &'b Vec2d<T>) -> (r: Vec2d<T>) {
        let x: T = self.x - other.x;
        let y: T = self.y - other.y;
        vec2d(x, y)
    }
}

impl<T: Copy + Mul<T, Output = T>> MulSpecImpl<T> for Vec2d<T> {
    open spec fn obeys_mul_spec() -> bool {
        T::obeys_mul_spec()
    }

    open spec fn mul_req(self, scalar: T) -> bool {
        &&& self.x.mul_req(scalar)
        &&& self.y.mul_req(scalar)
    }

    open spec fn mul_spec(self, scalar: T) -> Vec2d<T> {
        Vec2d { x: self.x.mul_spec(scalar), y: self.y.mul_spec(scalar) }
    }
}

impl<T: Copy + Mul<T, Output = T>> Mul<T> for Vec2d<T> {
    type Output = Vec2d<T>;

    fn mul(self, scalar: T) -> (r: Vec2d<T>) {
        let x: T = self.x * scalar;
        let y: T = self.y * scalar;
        vec2d(x, y)
    }
}

impl<'a, T: Copy + Mul<T, Output = T>> MulSpecImpl<T> for &'a Vec2d<T> {
    open spec fn obeys_mul_spec() -> bool {
        T::obeys_mul_spec()
    }

    open spec fn mul_req(self, scalar: T) -> bool {
        &&& self.x.mul_req(scalar)
        &&& self.y.mul_req(scalar)
    }

    open spec fn mul_spec(self, scalar: T) -> Vec2d<T> {
        Vec2d { x: self.x.mul_spec(scalar), y: self.y.mul_spec(scalar) }
    }
}

impl<'a, T: Copy + Mul<T, Output = T>> Mul<T> for &'a Vec2d<T> {
    type Output = Vec2d<T>;

    fn mul(self, scalar: T) -> (r: Vec2d<T>) {
        let x: T = self.x * scalar;
        let y: T = self.y * scalar;
        vec2d(x, y)
    }
}

impl<T: Copy + Div<T, Output = T>> DivSpecImpl<T> for Vec2d<T> {
    open spec fn obeys_div_spec() -> bool {
        T::obeys_div_spec()
    }

    open spec fn div_req(self, scalar: T) -> bool {
        &&& self.x.div_req(scalar)
        &&& self.y.div_req(scalar)
    }

    open spec fn div_spec(self, scalar: T) -> Vec2d<T> {
        Vec2d { x: self.x.div_spec(scalar), y: self.y.div_spec(scalar) }
    }
}

impl<T: Copy + Div<T, Output = T>> Div<T> for Vec2d<T> {
    type Output = Vec2d<T>;

    fn div(self, scalar: T) -> (r: Vec2d<T>) {
        let x: T = self.x / scalar;
        let y: T = self.y / scalar;
        vec2d(x, y)
    }
}

impl<'a, T: Copy + Div<T, Output = T>> DivSpecImpl<T> for &'a Vec2d<T> {
    open spec fn obeys_div_spec() -> bool {
        T::obeys_div_spec()
    }

    open spec fn div_req(self, scalar: T) -> bool {
        &&& self.x.div_req(scalar)
        &&& self.y.div_req(scalar)
    }

    open spec fn div_spec(self, scalar: T) -> Vec2d<T> {
        Vec2d { x: self.x.div_spec(scalar), y: self.y.div_spec(scalar) }
    }
}

impl<'a, T: Copy + Div<T, Output = T>> Div<T> for &'a Vec2d<T> {
    type Output = Vec2d<T>;

    fn div(self, scalar: T) -> (r: Vec2d<T>) {
        let x: T = self.x / scalar;
        let y: T = self.y / scalar;
        vec2d(x, y)
    }
}

impl<T: Copy + Neg<Output = T>> NegSpecImpl for Vec2d<T> {
    open spec fn obeys_neg_spec() -> bool {
        T::obeys_neg_spec()
    }

    open spec fn neg_req(self) -> bool {
        &&& self.x.neg_req()
        &&& self.y.neg_req()
    }

    open spec fn neg_spec(self) -> Vec2d<T> {
        Vec2d { x: self.x.neg_spec(), y: self.y.neg_spec() }
    }
}

impl<T: Copy + Neg<Output = T>> Neg for Vec2d<T> {
    type Output = Vec2d<T>;

    fn neg(self) -> (r: Vec2d<T>) {
        let x: T = self.x.neg();
        let y: T = self.y.neg();
        vec2d(x, y)
    }
}

impl<'a, T: Copy + Neg<Output = T>> NegSpecImpl for &'a Vec2d<T> {
    open spec fn obeys_neg_spec() -> bool {
        T::obeys_neg_spec()
    }

    open spec fn neg_req(self) -> bool {
        &&& self.x.neg_req()
        &&& self.y.neg_req()
    }

    open spec fn neg_spec(self) -> Vec2d<T> {
        Vec2d { x: self.x.neg_spec(), y: self.y.neg_spec() }
    }
}

impl<'a, T: Copy + Neg<Output = T>> Neg for &'a Vec2d<T> {
    type Output = Vec2d<T>;

    fn neg(self) -> (r: Vec2d<T>) {
        let x: T = self.x.neg();
        let y: T = self.y.neg();
        vec2d(x, y)
    }
}

impl<T: Copy + Add<T, Output = T>> Vec2d<T> {
    /// Adds `other` to the vector, component by component.
    pub fn add_assign(&mut self, other: Vec2d<T>)
        requires
            T::obeys_add_spec(),
            old(self).x.add_req(other.x),
            old(self).y.add_req(other.y),
        ensures
            final(self).x == old(self).x.add_spec(other.x),
            final(self).y == old(self).y.add_spec(other.y),
    {
        self.x = self.x + other.x;
        self.y = self.y + other.y;
    }
}

impl<T: Copy + Sub<T, Output = T>> Vec2d<T> {
    /// Subtracts `other` from the vector, component by component.
    pub fn sub_assign(&mut self, other: Vec2d<T>)
        requires
            T::obeys_sub_spec(),
            old(self).x.sub_req(other.x),
            old(self).y.sub_req(other.y),
        ensures
            final(self).x == old(self).x.sub_spec(other.x),
            final(self).y == old(self).y.sub_spec(other.y),
    {
        self.x = self.x - other.x;
        self.y = self.y - other.y;
    }
}

impl<T: Copy + Mul<T, Output = T>> Vec2d<T> {
    /// Multiplies every component by `scalar`.
    pub fn mul_assign(&mut self, scalar: T)
        requires
            T::obeys_mul_spec(),
            old(self).x.mul_req(scalar),
            old(self).y.mul_req(scalar),
        ensures
            final(self).x == old(self).x.mul_spec(scalar),
            final(self).y == old(self).y.mul_spec(scalar),
    {
        self.x = self.x * scalar;
        self.y = self.y * scalar;
    }
}

impl<T: Copy + Div<T, Output = T>> Vec2d<T> {
    /// Divides every component by `scalar`.
    pub fn div_assign(&mut self, scalar: T)
        requires
            T::obeys_div_spec(),
            old(self).x.div_req(scalar),
            old(self).y.div_req(scalar),
        ensures
            final(self).x == old(self).x.div_spec(scalar),
            final(self).y == old(self).y.div_spec(scalar),
    {
        self.x = self.x / scalar;
        self.y = self.y / scalar;
    }
}

} // verus!
