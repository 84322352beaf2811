//! A position in the plane with two scalar components.
use vstd::prelude::*;
use vstd::std_specs::ops::{AddSpec, MulSpec, SubSpec};
use crate::point3::Point3;
use crate::value::{is_number, larger, smaller, Value};
use crate::vector2::Vector2;

verus! {

#[derive(Clone, Copy, Debug)]
pub struct Point2<T: Value> {
    pub x: T,
    pub y: T,
}

impl<T: Value> Point2<T> {
    /// Component `i`: 0 is `x`, 1 is `y`.
    pub open spec fn component(self, i: int) -> T {
        if i == 0 {
            self.x
        } else {
            self.y
        }
    }

    pub open spec fn scaled_down_req(self, d: T) -> bool {
        let inv = T::unit().over(d);
        T::unit().can_div(d)
            && self.x.can_mul(inv)
            && self.y.can_mul(inv)
    }

    /// Each component times the reciprocal of `d`.
    pub open spec fn scaled_down(self, d: T) -> Self {
        let inv = T::unit().over(d);
        Point2 {
            x: self.x.times(inv),
            y: self.y.times(inv),
        }
    }

    /// The component-wise minimum.
    pub open spec fn min_spec(self, other: Self) -> Self {
        Point2 {
            x: smaller(self.x, other.x),
            y: smaller(self.y, other.y),
        }
    }

    /// The component-wise maximum.
    pub open spec fn max_spec(self, other: Self) -> Self {
        Point2 {
            x: larger(self.x, other.x),
            y: larger(self.y, other.y),
        }
    }

    /// The point with the given components, none of which may fail to be a number.
    pub fn new(x: T, y: T) -> (r: Self)
        requires
            is_number(x),
            is_number(y),
        ensures
            r == (Point2 {
                x: x,
                y: y,
            }),
    {
        Point2 {
            x: x,
            y: y,
        }
    }

    /// The component-wise minimum.
    pub fn min(self, other: Self) -> (r: Self)
        ensures
            r == self.min_spec(other),
    {
        Point2 {
            x: self.x.min(other.x),
            y: self.y.min(other.y),
        }
    }

    /// The component-wise maximum.
    pub fn max(self, other: Self) -> (r: Self)
        ensures
            r == self.max_spec(other),
    {
        Point2 {
            x: self.x.max(other.x),
            y: self.y.max(other.y),
        }
    }

    /// The point with each component rounded down.
    pub fn floor(self) -> (r: Self)
        requires
            self.x.can_floor(),
            self.y.can_floor(),
        ensures
            r == (Point2 {
                x: self.x.floored(),
                y: self.y.floored(),
            }),
    {
        Point2 {
            x: self.x.floor(),
            y: self.y.floor(),
        }
    }

    /// The point with each component rounded up.
    pub fn ceil(self) -> (r: Self)
        requires
            self.x.can_ceil(),
            self.y.can_ceil(),
        ensures
            r == (Point2 {
                x: self.x.ceiled(),
                y: self.y.ceiled(),
            }),
    {
        Point2 {
            x: self.x.ceil(),
            y: self.y.ceil(),
        }
    }

    /// The point of the magnitudes of the components.
    pub fn abs(self) -> (r: Self)
        requires
            self.x.can_abs(),
            self.y.can_abs(),
        ensures
            r == (Point2 {
                x: self.x.magnitude(),
                y: self.y.magnitude(),
            }),
    {
        Point2 {
            x: self.x.abs(),
            y: self.y.abs(),
        }
    }

    /// The point whose components are those of `self` at the indices `x` and `y`.
    pub fn permute(self, x: usize, y: usize) -> (r: Self)
        requires
            x <= 1,
            y <= 1,
        ensures
            r == (Point2 {
                x: self.component(x as int),
                y: self.component(y as int),
            }),
    {
        Point2 {
            x: self[x],
            y: self[y],
        }
    }

    /// Component `i`, open to change.
    pub fn index_mut(&mut self, i: usize) -> (r: &mut T)
        requires
            i <= 1,
        ensures
            *r == old(self).component(i as int),
            i == 0 ==> *final(self) == (Point2 { x: *final(r), ..*old(self) }),
            i == 1 ==> *final(self) == (Point2 { y: *final(r), ..*old(self) }),
    {
        match i {
            0 => &mut self.x,
            _ => &mut self.y,
        }
    }

    /// `self` becomes `self + other`.
    pub fn add_assign(&mut self, other: Vector2<T>)
        requires
            old(self).add_req(other),
        ensures
            *final(self) == old(self).add_spec(other),
    {
        self.x = self.x.add(other.x);
        self.y = self.y.add(other.y);
    }

    /// `self` becomes `self - other`.
    pub fn sub_assign(&mut self, other: Vector2<T>)
        requires
            old(self).sub_req(other),
        ensures
            *final(self) == old(self).sub_spec(other),
    {
        self.x = self.x.sub(other.x);
        self.y = self.y.sub(other.y);
    }

    /// `self` becomes `self * other`.
    pub fn mul_assign(&mut self, other: T)
        requires
            old(self).mul_req(other),
        ensures
            *final(self) == old(self).mul_spec(other),
    {
        self.x = self.x.mul(other);
        self.y = self.y.mul(other);
    }
}

impl<T: Value> From<Point3<T>> for Point2<T> {
    /// The point in the plane with the first two components of the point in space.
    fn from(p: Point3<T>) -> (r: Self) {
        Point2 {
            x: p.x,
            y: p.y,
        }
    }
}

impl<T: Value> vstd::std_specs::convert::FromSpecImpl<Point3<T>> for Point2<T> {
    open spec fn obeys_from_spec() -> bool {
        true
    }

    open spec fn from_spec(p: Point3<T>) -> Self {
        Point2 {
            x: p.x,
            y: p.y,
        }
    }
}

impl<T: Value> From<Vector2<T>> for Point2<T> {
    /// The point with the components of the vector.
    fn from(v: Vector2<T>) -> (r: Self) {
        Point2 {
            x: v.x,
            y: v.y,
        }
    }
}

impl<T: Value> vstd::std_specs::convert::FromSpecImpl<Vector2<T>> for Point2<T> {
    open spec fn obeys_from_spec() -> bool {
        true
    }

    open spec fn from_spec(v: Vector2<T>) -> Self {
        Point2 {
            x: v.x,
            y: v.y,
        }
    }
}

impl<T: Value> std::ops::Index<usize> for Point2<T> {
    type Output = T;

    fn index(&self, i: usize) -> (r: &T)
        ensures
            *r == self.component(i as int),
    {
        match i {
            0 => &self.x,
            _ => &self.y,
        }
    }
}

impl<T: Value> vstd::std_specs::core::IndexSpecImpl<usize> for Point2<T> {
    open spec fn index_req(&self, i: &usize) -> bool {
        *i <= 1
    }
}

impl<T: Value> std::ops::Add for Point2<T> {
    type Output = Self;

    fn add(self, other: Self) -> (r: Self) {
        Point2 {
            x: self.x.add(other.x),
            y: self.y.add(other.y),
        }
    }
}

impl<T: Value> vstd::std_specs::ops::AddSpecImpl for Point2<T> {
    open spec fn obeys_add_spec() -> bool {
        true
    }

    open spec fn add_req(self, other: Self) -> bool {
        self.x.can_add(other.x)
        && self.y.can_add(other.y)
    }

    open spec fn add_spec(self, other: Self) -> Self {
        Point2 {
            x: self.x.plus(other.x),
            y: self.y.plus(other.y),
        }
    }
}

impl<T: Value> std::ops::Add<Vector2<T>> for Point2<T> {
    type Output = Self;

    fn add(self, other: Vector2<T>) -> (r: Self) {
        Point2 {
            x: self.x.add(other.x),
            y: self.y.add(other.y),
        }
    }
}

impl<T: Value> vstd::std_specs::ops::AddSpecImpl<Vector2<T>> for Point2<T> {
    open spec fn obeys_add_spec() -> bool {
        true
    }

    open spec fn add_req(self, other: Vector2<T>) -> bool {
        self.x.can_add(other.x)
        && self.y.can_add(other.y)
    }

    open spec fn add_spec(self, other: Vector2<T>) -> Self {
        Point2 {
            x: self.x.plus(other.x),
            y: self.y.plus(other.y),
        }
    }
}

impl<T: Value> std::ops::Sub for Point2<T> {
    type Output = Vector2<T>;

    fn sub(self, other: Self) -> (r: Vector2<T>) {
        Vector2 {
            x: self.x.sub(other.x),
            y: self.y.sub(other.y),
        }
    }
}

impl<T: Value> vstd::std_specs::ops::SubSpecImpl for Point2<T> {
    open spec fn obeys_sub_spec() -> bool {
        true
    }

    open spec fn sub_req(self, other: Self) -> bool {
        self.x.can_sub(other.x)
        && self.y.can_sub(other.y)
    }

    open spec fn sub_spec(self, other: Self) -> Vector2<T> {
        Vector2 {
            x: self.x.minus(other.x),
            y: self.y.minus(other.y),
        }
    }
}

impl<T: Value> std::ops::Sub<Vector2<T>> for Point2<T> {
    type Output = Self;

    fn sub(self, other: Vector2<T>) -> (r: Self) {
        Point2 {
            x: self.x.sub(other.x),
            y: self.y.sub(other.y),
        }
    }
}

impl<T: Value> vstd::std_specs::ops::SubSpecImpl<Vector2<T>> for Point2<T> {
    open spec fn obeys_sub_spec() -> bool {
        true
    }

    open spec fn sub_req(self, other: Vector2<T>) -> bool {
        self.x.can_sub(other.x)
        && self.y.can_sub(other.y)
    }

    open spec fn sub_spec(self, other: Vector2<T>) -> Self {
        Point2 {
            x: self.x.minus(other.x),
            y: self.y.minus(other.y),
        }
    }
}

impl<T: Value> std::ops::Mul<T> for Point2<T> {
    type Output = Self;

    fn mul(self, other: T) -> (r: Self) {
        Point2 {
            x: self.x.mul(other),
            y: self.y.mul(other),
        }
    }
}

impl<T: Value> vstd::std_specs::ops::MulSpecImpl<T> for Point2<T> {
    open spec fn obeys_mul_spec() -> bool {
        true
    }

    open spec fn mul_req(self, other: T) -> bool {
        self.x.can_mul(other)
        && self.y.can_mul(other)
    }

    open spec fn mul_spec(self, other: T) -> Self {
        Point2 {
            x: self.x.times(other),
            y: self.y.times(other),
        }
    }
}

impl<T: Value> std::ops::Div<T> for Point2<T> {
    type Output = Self;

    /// Each component times the reciprocal of `other`.
    fn div(self, other: T) -> (r: Self) {
        let inv = T::one().div(other);
        Point2 {
            x: self.x.mul(inv),
            y: self.y.mul(inv),
        }
    }
}

impl<T: Value> vstd::std_specs::ops::DivSpecImpl<T> for Point2<T> {
    open spec fn obeys_div_spec() -> bool {
        true
    }

    open spec fn div_req(self, other: T) -> bool {
        self.scaled_down_req(other)
    }

    open spec fn div_spec(self, other: T) -> Self {
        self.scaled_down(other)
    }
}

} // verus!
