//! A direction in the plane with two scalar components.
use vstd::prelude::*;
use vstd::std_specs::ops::{AddSpec, MulSpec, SubSpec};
use crate::value::{is_number, larger, smaller, Value};

verus! {

#[derive(Clone, Copy, Debug)]
pub struct Vector2<T: Value> {
    pub x: T,
    pub y: T,
}

impl<T: Value> Vector2<T> {
    /// Component `i`: 0 is `x`, 1 is `y`.
    pub open spec fn component(self, i: int) -> T {
        if i == 0 {
            self.x
        } else {
            self.y
        }
    }

    pub open spec fn dot_req(self, other: Self) -> bool {
        &&& self.x.can_mul(other.x)
        &&& self.y.can_mul(other.y)
        &&& self.x.times(other.x).can_add(self.y.times(other.y))
    }

    /// The sum of the products of the components, added from left to right.
    pub open spec fn dot_spec(self, other: Self) -> T {
        self.x.times(other.x).plus(self.y.times(other.y))
    }

    pub open spec fn length_req(self) -> bool {
        self.dot_req(self) && self.dot_spec(self).can_sqrt()
    }

    pub open spec fn length_spec(self) -> T {
        self.dot_spec(self).root()
    }

    pub open spec fn scaled_down_req(self, d: T) -> bool {
        let inv = T::unit().over(d);
        T::unit().can_div(d)
            && self.x.can_mul(inv)
            && self.y.can_mul(inv)
    }

    /// Each component times the reciprocal of `d`.
    pub open spec fn scaled_down(self, d: T) -> Self {
        let inv = T::unit().over(d);
        Vector2 {
            x: self.x.times(inv),
            y: self.y.times(inv),
        }
    }

    pub open spec fn opposite_req(self) -> bool {
        let neg_one = T::unit().negated();
        T::unit().can_neg()
            && neg_one.can_mul(self.x)
            && neg_one.can_mul(self.y)
    }

    /// Each component times the negation of one.
    pub open spec fn opposite(self) -> Self {
        let neg_one = T::unit().negated();
        Vector2 {
            x: neg_one.times(self.x),
            y: neg_one.times(self.y),
        }
    }

    pub open spec fn normalize_req(self) -> bool {
        self.length_req() && self.scaled_down_req(self.length_spec())
    }

    /// The component-wise minimum.
    pub open spec fn min_spec(self, other: Self) -> Self {
        Vector2 {
            x: smaller(self.x, other.x),
            y: smaller(self.y, other.y),
        }
    }

    /// The component-wise maximum.
    pub open spec fn max_spec(self, other: Self) -> Self {
        Vector2 {
            x: larger(self.x, other.x),
            y: larger(self.y, other.y),
        }
    }

    /// The vector with the given components, none of which may fail to be a number.
    pub fn new(x: T, y: T) -> (r: Self)
        requires
            is_number(x),
            is_number(y),
        ensures
            r == (Vector2 {
                x: x,
                y: y,
            }),
    {
        Vector2 {
            x: x,
            y: y,
        }
    }

    /// Whether a component is not a number.
    pub fn has_nans(self) -> (r: bool)
        ensures
            r == !(is_number(self.x) && is_number(self.y)),
    {
        !self.x.equals(self.x) || !self.y.equals(self.y)
    }

    /// The vector of the magnitudes of the components.
    pub fn abs(self) -> (r: Self)
        requires
            self.x.can_abs(),
            self.y.can_abs(),
        ensures
            r == (Vector2 {
                x: self.x.magnitude(),
                y: self.y.magnitude(),
            }),
    {
        Vector2 {
            x: self.x.abs(),
            y: self.y.abs(),
        }
    }

    /// The dot product.
    pub fn dot(self, other: Self) -> (r: T)
        requires
            self.dot_req(other),
        ensures
            r == self.dot_spec(other),
    {
        self.x.mul(other.x).add(self.y.mul(other.y))
    }

    /// The magnitude of the dot product.
    pub fn abs_dot(self, other: Self) -> (r: T)
        requires
            self.dot_req(other),
            self.dot_spec(other).can_abs(),
        ensures
            r == self.dot_spec(other).magnitude(),
    {
        self.dot(other).abs()
    }

    /// The dot product of the vector with itself.
    pub fn length_squared(self) -> (r: T)
        requires
            self.dot_req(self),
        ensures
            r == self.dot_spec(self),
    {
        self.x.mul(self.x).add(self.y.mul(self.y))
    }

    /// The square root of `length_squared`.
    pub fn length(self) -> (r: T)
        requires
            self.length_req(),
        ensures
            r == self.length_spec(),
    {
        self.length_squared().sqrt()
    }

    /// The vector divided by its length.
    pub fn normalize(self) -> (r: Self)
        requires
            self.normalize_req(),
        ensures
            r == self.scaled_down(self.length_spec()),
    {
        self / self.length()
    }

    /// The least component; among equals the later one.
    pub fn min_component(self) -> (r: T)
        ensures
            r == smaller(self.x, self.y),
    {
        self.x.min(self.y)
    }

    /// The greatest component; among equals the later one.
    pub fn max_component(self) -> (r: T)
        ensures
            r == larger(self.x, self.y),
    {
        self.x.max(self.y)
    }

    /// The index of the greater component: 0 where `x` is strictly greater than
    /// `y`, else 1.
    pub fn max_dimension(self) -> (r: usize)
        ensures
            r == (if self.y.less(self.x) {
                0usize
            } else {
                1usize
            }),
    {
        if self.x.gt(self.y) {
            0
        } else {
            1
        }
    }

    /// The component-wise minimum.
    pub fn min(self, other: Self) -> (r: Self)
        ensures
            r == self.min_spec(other),
    {
        Vector2 {
            x: self.x.min(other.x),
            y: self.y.min(other.y),
        }
    }

    /// The component-wise maximum.
    pub fn max(self, other: Self) -> (r: Self)
        ensures
            r == self.max_spec(other),
    {
        Vector2 {
            x: self.x.max(other.x),
            y: self.y.max(other.y),
        }
    }

    /// The vector whose components are those of `self` at the indices `x` and `y`.
    pub fn permute(self, x: usize, y: usize) -> (r: Self)
        requires
            x <= 1,
            y <= 1,
        ensures
            r == (Vector2 {
                x: self.component(x as int),
                y: self.component(y as int),
            }),
    {
        Vector2 {
            x: self[x],
            y: self[y],
        }
    }

    /// Component `i`, open to change.
    pub fn index_mut(&mut self, i: usize) -> (r: &mut T)
        requires
            i <= 1,
        ensures
            *r == old(self).component(i as int),
            i == 0 ==> *final(self) == (Vector2 { x: *final(r), ..*old(self) }),
            i == 1 ==> *final(self) == (Vector2 { y: *final(r), ..*old(self) }),
    {
        match i {
            0 => &mut self.x,
            _ => &mut self.y,
        }
    }

    /// `self` becomes `self + other`.
    pub fn add_assign(&mut self, other: Self)
        requires
            old(self).add_req(other),
        ensures
            *final(self) == old(self).add_spec(other),
    {
        self.x = self.x.add(other.x);
        self.y = self.y.add(other.y);
    }

    /// `self` becomes `self - other`.
    pub fn sub_assign(&mut self, other: Self)
        requires
            old(self).sub_req(other),
        ensures
            *final(self) == old(self).sub_spec(other),
    {
        self.x = self.x.sub(other.x);
        self.y = self.y.sub(other.y);
    }

    /// `self` becomes `self * other`.
    pub fn mul_assign(&mut self, other: T)
        requires
            old(self).mul_req(other),
        ensures
            *final(self) == old(self).mul_spec(other),
    {
        self.x = self.x.mul(other);
        self.y = self.y.mul(other);
    }

    /// `self` becomes `self / other`.
    pub fn div_assign(&mut self, other: T)
        requires
            old(self).scaled_down_req(other),
        ensures
            *final(self) == old(self).scaled_down(other),
    {
        let inv = T::one().div(other);
        self.x = self.x.mul(inv);
        self.y = self.y.mul(inv);
    }
}

impl<T: Value> std::ops::Index<usize> for Vector2<T> {
    type Output = T;

    fn index(&self, i: usize) -> (r: &T)
        ensures
            *r == self.component(i as int),
    {
        match i {
            0 => &self.x,
            _ => &self.y,
        }
    }
}

impl<T: Value> vstd::std_specs::core::IndexSpecImpl<usize> for Vector2<T> {
    open spec fn index_req(&self, i: &usize) -> bool {
        *i <= 1
    }
}

impl<T: Value> std::ops::Add for Vector2<T> {
    type Output = Self;

    fn add(self, other: Self) -> (r: Self) {
        Vector2 {
            x: self.x.add(other.x),
            y: self.y.add(other.y),
        }
    }
}

impl<T: Value> vstd::std_specs::ops::AddSpecImpl for Vector2<T> {
    open spec fn obeys_add_spec() -> bool {
        true
    }

    open spec fn add_req(self, other: Self) -> bool {
        self.x.can_add(other.x)
        && self.y.can_add(other.y)
    }

    open spec fn add_spec(self, other: Self) -> Self {
        Vector2 {
            x: self.x.plus(other.x),
            y: self.y.plus(other.y),
        }
    }
}

impl<T: Value> std::ops::Sub for Vector2<T> {
    type Output = Self;

    fn sub(self, other: Self) -> (r: Self) {
        Vector2 {
            x: self.x.sub(other.x),
            y: self.y.sub(other.y),
        }
    }
}

impl<T: Value> vstd::std_specs::ops::SubSpecImpl for Vector2<T> {
    open spec fn obeys_sub_spec() -> bool {
        true
    }

    open spec fn sub_req(self, other: Self) -> bool {
        self.x.can_sub(other.x)
        && self.y.can_sub(other.y)
    }

    open spec fn sub_spec(self, other: Self) -> Self {
        Vector2 {
            x: self.x.minus(other.x),
            y: self.y.minus(other.y),
        }
    }
}

impl<T: Value> std::ops::Mul<T> for Vector2<T> {
    type Output = Self;

    fn mul(self, other: T) -> (r: Self) {
        Vector2 {
            x: self.x.mul(other),
            y: self.y.mul(other),
        }
    }
}

impl<T: Value> vstd::std_specs::ops::MulSpecImpl<T> for Vector2<T> {
    open spec fn obeys_mul_spec() -> bool {
        true
    }

    open spec fn mul_req(self, other: T) -> bool {
        self.x.can_mul(other)
        && self.y.can_mul(other)
    }

    open spec fn mul_spec(self, other: T) -> Self {
        Vector2 {
            x: self.x.times(other),
            y: self.y.times(other),
        }
    }
}

impl<T: Value> std::ops::Div<T> for Vector2<T> {
    type Output = Self;

    /// Each component times the reciprocal of `other`.
    fn div(self, other: T) -> (r: Self) {
        let inv = T::one().div(other);
        Vector2 {
            x: self.x.mul(inv),
            y: self.y.mul(inv),
        }
    }
}

impl<T: Value> vstd::std_specs::ops::DivSpecImpl<T> for Vector2<T> {
    open spec fn obeys_div_spec() -> bool {
        true
    }

    open spec fn div_req(self, other: T) -> bool {
        self.scaled_down_req(other)
    }

    open spec fn div_spec(self, other: T) -> Self {
        self.scaled_down(other)
    }
}

impl<T: Value> std::ops::Neg for Vector2<T> {
    type Output = Self;

    /// Each component times the negation of one.
    fn neg(self) -> (r: Self) {
        let neg_one = T::one().neg();
        Vector2 {
            x: neg_one.mul(self.x),
            y: neg_one.mul(self.y),
        }
    }
}

impl<T: Value> vstd::std_specs::ops::NegSpecImpl for Vector2<T> {
    open spec fn obeys_neg_spec() -> bool {
        true
    }

    open spec fn neg_req(self) -> bool {
        self.opposite_req()
    }

    open spec fn neg_spec(self) -> Self {
        self.opposite()
    }
}

} // verus!
