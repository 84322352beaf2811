//! A surface normal with three scalar components.
use vstd::prelude::*;
use vstd::std_specs::ops::{AddSpec, MulSpec, SubSpec};
use crate::value::{is_number, larger, smaller, Value};
use crate::vector3::Vector3;

verus! {

#[derive(Clone, Copy, Debug)]
pub struct Normal3<T: Value> {
    pub x: T,
    pub y: T,
    pub z: T,
}

impl<T: Value> Normal3<T> {
    /// Component `i`: 0 is `x`, 1 is `y`, 2 is `z`.
    pub open spec fn component(self, i: int) -> T {
        if i == 0 {
            self.x
        } else if i == 1 {
            self.y
        } else {
            self.z
        }
    }

    pub open spec fn dot_req(self, other: Self) -> bool {
        &&& self.x.can_mul(other.x)
        &&& self.y.can_mul(other.y)
        &&& self.z.can_mul(other.z)
        &&& self.x.times(other.x).can_add(self.y.times(other.y))
        &&& self.x.times(other.x).plus(self.y.times(other.y)).can_add(self.z.times(other.z))
    }

    /// The sum of the products of the components, added from left to right.
    pub open spec fn dot_spec(self, other: Self) -> T {
        self.x.times(other.x).plus(self.y.times(other.y)).plus(self.z.times(other.z))
    }

    pub open spec fn length_req(self) -> bool {
        self.dot_req(self) && self.dot_spec(self).can_sqrt()
    }

    pub open spec fn length_spec(self) -> T {
        self.dot_spec(self).root()
    }

    pub open spec fn scaled_down_req(self, d: T) -> bool {
        let inv = T::unit().over(d);
        T::unit().can_div(d)
            && self.x.can_mul(inv)
            && self.y.can_mul(inv)
            && self.z.can_mul(inv)
    }

    /// Each component times the reciprocal of `d`.
    pub open spec fn scaled_down(self, d: T) -> Self {
        let inv = T::unit().over(d);
        Normal3 {
            x: self.x.times(inv),
            y: self.y.times(inv),
            z: self.z.times(inv),
        }
    }

    pub open spec fn opposite_req(self) -> bool {
        let neg_one = T::unit().negated();
        T::unit().can_neg()
            && neg_one.can_mul(self.x)
            && neg_one.can_mul(self.y)
            && neg_one.can_mul(self.z)
    }

    /// Each component times the negation of one.
    pub open spec fn opposite(self) -> Self {
        let neg_one = T::unit().negated();
        Normal3 {
            x: neg_one.times(self.x),
            y: neg_one.times(self.y),
            z: neg_one.times(self.z),
        }
    }

    pub open spec fn normalize_req(self) -> bool {
        self.length_req() && self.scaled_down_req(self.length_spec())
    }

    /// The component-wise minimum.
    pub open spec fn min_spec(self, other: Self) -> Self {
        Normal3 {
            x: smaller(self.x, other.x),
            y: smaller(self.y, other.y),
            z: smaller(self.z, other.z),
        }
    }

    /// The component-wise maximum.
    pub open spec fn max_spec(self, other: Self) -> Self {
        Normal3 {
            x: larger(self.x, other.x),
            y: larger(self.y, other.y),
            z: larger(self.z, other.z),
        }
    }

    pub open spec fn face_forward_req(self, other: Vector3<T>) -> bool {
        let v = Normal3 { x: other.x, y: other.y, z: other.z };
        self.dot_req(v) && (self.dot_spec(v).less(T::nil()) ==> self.opposite_req())
    }

    /// The normal with the given components, none of which may fail to be a number.
    pub fn new(x: T, y: T, z: T) -> (r: Self)
        requires
            is_number(x),
            is_number(y),
            is_number(z),
        ensures
            r == (Normal3 {
                x: x,
                y: y,
                z: z,
            }),
    {
        Normal3 {
            x: x,
            y: y,
            z: z,
        }
    }

    /// The normal whose components are all zero.
    pub fn zero() -> (r: Self)
        ensures
            r == (Normal3 {
                x: T::nil(),
                y: T::nil(),
                z: T::nil(),
            }),
    {
        Normal3 {
            x: T::zero(),
            y: T::zero(),
            z: T::zero(),
        }
    }

    /// The normal of the magnitudes of the components.
    pub fn abs(self) -> (r: Self)
        requires
            self.x.can_abs(),
            self.y.can_abs(),
            self.z.can_abs(),
        ensures
            r == (Normal3 {
                x: self.x.magnitude(),
                y: self.y.magnitude(),
                z: self.z.magnitude(),
            }),
    {
        Normal3 {
            x: self.x.abs(),
            y: self.y.abs(),
            z: self.z.abs(),
        }
    }

    /// The dot product.
    pub fn dot(self, other: Self) -> (r: T)
        requires
            self.dot_req(other),
        ensures
            r == self.dot_spec(other),
    {
        self.x.mul(other.x).add(self.y.mul(other.y)).add(self.z.mul(other.z))
    }

    /// The magnitude of the dot product.
    pub fn abs_dot(self, other: Self) -> (r: T)
        requires
            self.dot_req(other),
            self.dot_spec(other).can_abs(),
        ensures
            r == self.dot_spec(other).magnitude(),
    {
        self.dot(other).abs()
    }

    /// The dot product of the normal with itself.
    pub fn length_squared(self) -> (r: T)
        requires
            self.dot_req(self),
        ensures
            r == self.dot_spec(self),
    {
        self.x.mul(self.x).add(self.y.mul(self.y)).add(self.z.mul(self.z))
    }

    /// The square root of `length_squared`.
    pub fn length(self) -> (r: T)
        requires
            self.length_req(),
        ensures
            r == self.length_spec(),
    {
        self.length_squared().sqrt()
    }

    /// The normal divided by its length.
    pub fn normalize(self) -> (r: Self)
        requires
            self.normalize_req(),
        ensures
            r == self.scaled_down(self.length_spec()),
    {
        self / self.length()
    }

    /// The least component; among equals the later one.
    pub fn min_component(self) -> (r: T)
        ensures
            r == smaller(self.x, smaller(self.y, self.z)),
    {
        self.x.min(self.y.min(self.z))
    }

    /// The greatest component; among equals the later one.
    pub fn max_component(self) -> (r: T)
        ensures
            r == larger(self.x, larger(self.y, self.z)),
    {
        self.x.max(self.y.max(self.z))
    }

    /// The index of a component that none exceeds: 0 where `x` is strictly
    /// greater than both others, else 1 where `y` is strictly greater than
    /// `z`, else 2.
    pub fn max_dimension(self) -> (r: usize)
        ensures
            r == (if self.y.less(self.x) {
                if self.z.less(self.x) {
                    0usize
                } else {
                    2usize
                }
            } else {
                if self.z.less(self.y) {
                    1usize
                } else {
                    2usize
                }
            }),
    {
        if self.x.gt(self.y) {
            if self.x.gt(self.z) {
                0
            } else {
                2
            }
        } else {
            if self.y.gt(self.z) {
                1
            } else {
                2
            }
        }
    }

    /// The component-wise minimum.
    pub fn min(self, other: Self) -> (r: Self)
        ensures
            r == self.min_spec(other),
    {
        Normal3 {
            x: self.x.min(other.x),
            y: self.y.min(other.y),
            z: self.z.min(other.z),
        }
    }

    /// The component-wise maximum.
    pub fn max(self, other: Self) -> (r: Self)
        ensures
            r == self.max_spec(other),
    {
        Normal3 {
            x: self.x.max(other.x),
            y: self.y.max(other.y),
            z: self.z.max(other.z),
        }
    }

    /// The normal whose components are those of `self` at the indices `x`, `y` and `z`.
    pub fn permute(self, x: usize, y: usize, z: usize) -> (r: Self)
        requires
            x <= 2,
            y <= 2,
            z <= 2,
        ensures
            r == (Normal3 {
                x: self.component(x as int),
                y: self.component(y as int),
                z: self.component(z as int),
            }),
    {
        Normal3 {
            x: self[x],
            y: self[y],
            z: self[z],
        }
    }

    /// The normal turned to the side of `other`: where its dot product with
    /// `other` is negative the opposite normal, else the normal itself.
    pub fn face_forward(self, other: Vector3<T>) -> (r: Self)
        requires
            self.face_forward_req(other),
        ensures
            r == (if self.dot_spec(Normal3 { x: other.x, y: other.y, z: other.z }).less(T::nil()) {
                self.opposite()
            } else {
                self
            }),
    {
        let dot = self.dot(Self::from(other));
        if dot.lt(T::zero()) {
            std::ops::Neg::neg(self)
        } else {
            self
        }
    }

    /// Component `i`, open to change.
    pub fn index_mut(&mut self, i: usize) -> (r: &mut T)
        requires
            i <= 2,
        ensures
            *r == old(self).component(i as int),
            i == 0 ==> *final(self) == (Normal3 { x: *final(r), ..*old(self) }),
            i == 1 ==> *final(self) == (Normal3 { y: *final(r), ..*old(self) }),
            i == 2 ==> *final(self) == (Normal3 { z: *final(r), ..*old(self) }),
    {
        match i {
            0 => &mut self.x,
            1 => &mut self.y,
            _ => &mut self.z,
        }
    }

    /// `self` becomes `self + other`.
    pub fn add_assign(&mut self, other: Self)
        requires
            old(self).add_req(other),
        ensures
            *final(self) == old(self).add_spec(other),
    {
        self.x = self.x.add(other.x);
        self.y = self.y.add(other.y);
        self.z = self.z.add(other.z);
    }

    /// `self` becomes `self - other`.
    pub fn sub_assign(&mut self, other: Self)
        requires
            old(self).sub_req(other),
        ensures
            *final(self) == old(self).sub_spec(other),
    {
        self.x = self.x.sub(other.x);
        self.y = self.y.sub(other.y);
        self.z = self.z.sub(other.z);
    }

    /// `self` becomes `self * other`.
    pub fn mul_assign(&mut self, other: T)
        requires
            old(self).mul_req(other),
        ensures
            *final(self) == old(self).mul_spec(other),
    {
        self.x = self.x.mul(other);
        self.y = self.y.mul(other);
        self.z = self.z.mul(other);
    }

    /// `self` becomes `self / other`.
    pub fn div_assign(&mut self, other: T)
        requires
            old(self).scaled_down_req(other),
        ensures
            *final(self) == old(self).scaled_down(other),
    {
        let inv = T::one().div(other);
        self.x = self.x.mul(inv);
        self.y = self.y.mul(inv);
        self.z = self.z.mul(inv);
    }
}

impl<T: Value> From<Vector3<T>> for Normal3<T> {
    /// The normal with the components of the vector.
    fn from(v: Vector3<T>) -> (r: Self) {
        Normal3 {
            x: v.x,
            y: v.y,
            z: v.z,
        }
    }
}

impl<T: Value> vstd::std_specs::convert::FromSpecImpl<Vector3<T>> for Normal3<T> {
    open spec fn obeys_from_spec() -> bool {
        true
    }

    open spec fn from_spec(v: Vector3<T>) -> Self {
        Normal3 {
            x: v.x,
            y: v.y,
            z: v.z,
        }
    }
}

impl<T: Value> std::ops::Index<usize> for Normal3<T> {
    type Output = T;

    fn index(&self, i: usize) -> (r: &T)
        ensures
            *r == self.component(i as int),
    {
        match i {
            0 => &self.x,
            1 => &self.y,
            _ => &self.z,
        }
    }
}

impl<T: Value> vstd::std_specs::core::IndexSpecImpl<usize> for Normal3<T> {
    open spec fn index_req(&self, i: &usize) -> bool {
        *i <= 2
    }
}

impl<T: Value> std::ops::Add for Normal3<T> {
    type Output = Self;

    fn add(self, other: Self) -> (r: Self) {
        Normal3 {
            x: self.x.add(other.x),
            y: self.y.add(other.y),
            z: self.z.add(other.z),
        }
    }
}

impl<T: Value> vstd::std_specs::ops::AddSpecImpl for Normal3<T> {
    open spec fn obeys_add_spec() -> bool {
        true
    }

    open spec fn add_req(self, other: Self) -> bool {
        self.x.can_add(other.x)
        && self.y.can_add(other.y)
        && self.z.can_add(other.z)
    }

    open spec fn add_spec(self, other: Self) -> Self {
        Normal3 {
            x: self.x.plus(other.x),
            y: self.y.plus(other.y),
            z: self.z.plus(other.z),
        }
    }
}

impl<T: Value> std::ops::Sub for Normal3<T> {
    type Output = Self;

    fn sub(self, other: Self) -> (r: Self) {
        Normal3 {
            x: self.x.sub(other.x),
            y: self.y.sub(other.y),
            z: self.z.sub(other.z),
        }
    }
}

impl<T: Value> vstd::std_specs::ops::SubSpecImpl for Normal3<T> {
    open spec fn obeys_sub_spec() -> bool {
        true
    }

    open spec fn sub_req(self, other: Self) -> bool {
        self.x.can_sub(other.x)
        && self.y.can_sub(other.y)
        && self.z.can_sub(other.z)
    }

    open spec fn sub_spec(self, other: Self) -> Self {
        Normal3 {
            x: self.x.minus(other.x),
            y: self.y.minus(other.y),
            z: self.z.minus(other.z),
        }
    }
}

impl<T: Value> std::ops::Mul<T> for Normal3<T> {
    type Output = Self;

    fn mul(self, other: T) -> (r: Self) {
        Normal3 {
            x: self.x.mul(other),
            y: self.y.mul(other),
            z: self.z.mul(other),
        }
    }
}

impl<T: Value> vstd::std_specs::ops::MulSpecImpl<T> for Normal3<T> {
    open spec fn obeys_mul_spec() -> bool {
        true
    }

    open spec fn mul_req(self, other: T) -> bool {
        self.x.can_mul(other)
        && self.y.can_mul(other)
        && self.z.can_mul(other)
    }

    open spec fn mul_spec(self, other: T) -> Self {
        Normal3 {
            x: self.x.times(other),
            y: self.y.times(other),
            z: self.z.times(other),
        }
    }
}

impl<T: Value> std::ops::Div<T> for Normal3<T> {
    type Output = Self;

    /// Each component times the reciprocal of `other`.
    fn div(self, other: T) -> (r: Self) {
        let inv = T::one().div(other);
        Normal3 {
            x: self.x.mul(inv),
            y: self.y.mul(inv),
            z: self.z.mul(inv),
        }
    }
}

impl<T: Value> vstd::std_specs::ops::DivSpecImpl<T> for Normal3<T> {
    open spec fn obeys_div_spec() -> bool {
        true
    }

    open spec fn div_req(self, other: T) -> bool {
        self.scaled_down_req(other)
    }

    open spec fn div_spec(self, other: T) -> Self {
        self.scaled_down(other)
    }
}

impl<T: Value> std::ops::Neg for Normal3<T> {
    type Output = Self;

    /// Each component times the negation of one.
    fn neg(self) -> (r: Self) {
        let neg_one = T::one().neg();
        Normal3 {
            x: neg_one.mul(self.x),
            y: neg_one.mul(self.y),
            z: neg_one.mul(self.z),
        }
    }
}

impl<T: Value> vstd::std_specs::ops::NegSpecImpl for Normal3<T> {
    open spec fn obeys_neg_spec() -> bool {
        true
    }

    open spec fn neg_req(self) -> bool {
        self.opposite_req()
    }

    open spec fn neg_spec(self) -> Self {
        self.opposite()
    }
}

} // verus!
