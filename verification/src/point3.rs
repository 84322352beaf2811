//! A position in space with three scalar components.
use vstd::prelude::*;
use vstd::std_specs::ops::{AddSpec, MulSpec, SubSpec};
use crate::grid::Grid;
use crate::transform::Transform;
use crate::transformable::Transformable;
use crate::value::{is_number, larger, smaller, Value};
use crate::vector3::Vector3;

verus! {

#[derive(Clone, Copy, Debug)]
pub struct Point3<T: Value> {
    pub x: T,
    pub y: T,
    pub z: T,
}

impl<T: Value> Point3<T> {
    /// Component `i`: 0 is `x`, 1 is `y`, 2 is `z`.
    pub open spec fn component(self, i: int) -> T {
        if i == 0 {
            self.x
        } else if i == 1 {
            self.y
        } else {
            self.z
        }
    }

    pub open spec fn scaled_down_req(self, d: T) -> bool {
        let inv = T::unit().over(d);
        T::unit().can_div(d)
            && self.x.can_mul(inv)
            && self.y.can_mul(inv)
            && self.z.can_mul(inv)
    }

    /// Each component times the reciprocal of `d`.
    pub open spec fn scaled_down(self, d: T) -> Self {
        let inv = T::unit().over(d);
        Point3 {
            x: self.x.times(inv),
            y: self.y.times(inv),
            z: self.z.times(inv),
        }
    }

    /// The component-wise minimum.
    pub open spec fn min_spec(self, other: Self) -> Self {
        Point3 {
            x: smaller(self.x, other.x),
            y: smaller(self.y, other.y),
            z: smaller(self.z, other.z),
        }
    }

    /// The component-wise maximum.
    pub open spec fn max_spec(self, other: Self) -> Self {
        Point3 {
            x: larger(self.x, other.x),
            y: larger(self.y, other.y),
            z: larger(self.z, other.z),
        }
    }

    /// The vector from `other` to `self`.
    pub open spec fn offset_from(self, other: Self) -> Vector3<T> {
        Vector3 {
            x: self.x.minus(other.x),
            y: self.y.minus(other.y),
            z: self.z.minus(other.z),
        }
    }

    pub open spec fn offset_from_req(self, other: Self) -> bool {
        self.x.can_sub(other.x) && self.y.can_sub(other.y) && self.z.can_sub(other.z)
    }

    pub open spec fn distance_squared_req(self, other: Self) -> bool {
        let d = self.offset_from(other);
        self.offset_from_req(other) && d.dot_req(d)
    }

    pub open spec fn distance_req(self, other: Self) -> bool {
        self.offset_from_req(other) && self.offset_from(other).length_req()
    }

    /// `a * (1 - t) + b * t`.
    pub open spec fn blend(a: T, b: T, t: T) -> T {
        a.times(T::unit().minus(t)).plus(b.times(t))
    }

    pub open spec fn blend_req(a: T, b: T, t: T) -> bool {
        &&& T::unit().can_sub(t)
        &&& a.can_mul(T::unit().minus(t))
        &&& b.can_mul(t)
        &&& a.times(T::unit().minus(t)).can_add(b.times(t))
    }

    /// Row `i` of `g` applied to the point with the fourth coordinate one:
    /// `g[i][0] * x + g[i][1] * y + g[i][2] * z + g[i][3]`, added from left to right.
    pub open spec fn row_applied(self, g: Grid<T>, i: int) -> T {
        g[i][0].times(self.x).plus(g[i][1].times(self.y)).plus(g[i][2].times(self.z)).plus(g[i][3])
    }

    pub open spec fn row_applied_req(self, g: Grid<T>, i: int) -> bool {
        let px = g[i][0].times(self.x);
        let py = g[i][1].times(self.y);
        let pz = g[i][2].times(self.z);
        &&& g[i][0].can_mul(self.x)
        &&& g[i][1].can_mul(self.y)
        &&& g[i][2].can_mul(self.z)
        &&& px.can_add(py)
        &&& px.plus(py).can_add(pz)
        &&& px.plus(py).plus(pz).can_add(g[i][3])
    }

    /// The point carried through the matrix `g`: the rows 0 to 2 applied to it,
    /// each divided by row 3 applied to it where that is not one.
    pub open spec fn carried(self, g: Grid<T>) -> Self {
        let w = self.row_applied(g, 3);
        if w.same(T::unit()) {
            Point3 {
                x: self.row_applied(g, 0),
                y: self.row_applied(g, 1),
                z: self.row_applied(g, 2),
            }
        } else {
            Point3 {
                x: self.row_applied(g, 0).over(w),
                y: self.row_applied(g, 1).over(w),
                z: self.row_applied(g, 2).over(w),
            }
        }
    }

    pub open spec fn carried_req(self, g: Grid<T>) -> bool {
        let w = self.row_applied(g, 3);
        &&& self.row_applied_req(g, 0)
        &&& self.row_applied_req(g, 1)
        &&& self.row_applied_req(g, 2)
        &&& self.row_applied_req(g, 3)
        &&& !w.same(T::unit()) ==> {
            &&& self.row_applied(g, 0).can_div(w)
            &&& self.row_applied(g, 1).can_div(w)
            &&& self.row_applied(g, 2).can_div(w)
        }
    }

    /// The point with the given components, none of which may fail to be a number.
    pub fn new(x: T, y: T, z: T) -> (r: Self)
        requires
            is_number(x),
            is_number(y),
            is_number(z),
        ensures
            r == (Point3 {
                x: x,
                y: y,
                z: z,
            }),
    {
        Point3 {
            x: x,
            y: y,
            z: z,
        }
    }

    /// The point whose components are all zero.
    pub fn zero() -> (r: Self)
        ensures
            r == (Point3 {
                x: T::nil(),
                y: T::nil(),
                z: T::nil(),
            }),
    {
        Point3 {
            x: T::zero(),
            y: T::zero(),
            z: T::zero(),
        }
    }

    /// The square of the distance between two points.
    pub fn distance_squared(self, other: Self) -> (r: T)
        requires
            self.distance_squared_req(other),
        ensures
            r == self.offset_from(other).dot_spec(self.offset_from(other)),
    {
        (self - other).length_squared()
    }

    /// The distance between two points.
    pub fn distance(self, other: Self) -> (r: T)
        requires
            self.distance_req(other),
        ensures
            r == self.offset_from(other).length_spec(),
    {
        (self - other).length()
    }

    /// The point at `t` on the way from `self` to `other`: `self` at zero,
    /// `other` at one.
    pub fn lerp(self, other: Self, t: T) -> (r: Self)
        requires
            Self::blend_req(self.x, other.x, t),
            Self::blend_req(self.y, other.y, t),
            Self::blend_req(self.z, other.z, t),
        ensures
            r == (Point3 {
                x: Self::blend(self.x, other.x, t),
                y: Self::blend(self.y, other.y, t),
                z: Self::blend(self.z, other.z, t),
            }),
    {
        (self * T::one().sub(t)) + (other * t)
    }

    /// The component-wise minimum.
    pub fn min(self, other: Self) -> (r: Self)
        ensures
            r == self.min_spec(other),
    {
        Point3 {
            x: self.x.min(other.x),
            y: self.y.min(other.y),
            z: self.z.min(other.z),
        }
    }

    /// The component-wise maximum.
    pub fn max(self, other: Self) -> (r: Self)
        ensures
            r == self.max_spec(other),
    {
        Point3 {
            x: self.x.max(other.x),
            y: self.y.max(other.y),
            z: self.z.max(other.z),
        }
    }

    /// The point with each component rounded down.
    pub fn floor(self) -> (r: Self)
        requires
            self.x.can_floor(),
            self.y.can_floor(),
            self.z.can_floor(),
        ensures
            r == (Point3 {
                x: self.x.floored(),
                y: self.y.floored(),
                z: self.z.floored(),
            }),
    {
        Point3 {
            x: self.x.floor(),
            y: self.y.floor(),
            z: self.z.floor(),
        }
    }

    /// The point with each component rounded up.
    pub fn ceil(self) -> (r: Self)
        requires
            self.x.can_ceil(),
            self.y.can_ceil(),
            self.z.can_ceil(),
        ensures
            r == (Point3 {
                x: self.x.ceiled(),
                y: self.y.ceiled(),
                z: self.z.ceiled(),
            }),
    {
        Point3 {
            x: self.x.ceil(),
            y: self.y.ceil(),
            z: self.z.ceil(),
        }
    }

    /// The point of the magnitudes of the components.
    pub fn abs(self) -> (r: Self)
        requires
            self.x.can_abs(),
            self.y.can_abs(),
            self.z.can_abs(),
        ensures
            r == (Point3 {
                x: self.x.magnitude(),
                y: self.y.magnitude(),
                z: self.z.magnitude(),
            }),
    {
        Point3 {
            x: self.x.abs(),
            y: self.y.abs(),
            z: self.z.abs(),
        }
    }

    /// The point whose components are those of `self` at the indices `x`, `y` and `z`.
    pub fn permute(self, x: usize, y: usize, z: usize) -> (r: Self)
        requires
            x <= 2,
            y <= 2,
            z <= 2,
        ensures
            r == (Point3 {
                x: self.component(x as int),
                y: self.component(y as int),
                z: self.component(z as int),
            }),
    {
        Point3 {
            x: self[x],
            y: self[y],
            z: self[z],
        }
    }

    /// Component `i`, open to change.
    pub fn index_mut(&mut self, i: usize) -> (r: &mut T)
        requires
            i <= 2,
        ensures
            *r == old(self).component(i as int),
            i == 0 ==> *final(self) == (Point3 { x: *final(r), ..*old(self) }),
            i == 1 ==> *final(self) == (Point3 { y: *final(r), ..*old(self) }),
            i == 2 ==> *final(self) == (Point3 { z: *final(r), ..*old(self) }),
    {
        match i {
            0 => &mut self.x,
            1 => &mut self.y,
            _ => &mut self.z,
        }
    }

    /// `self` becomes `self + other`.
    pub fn add_assign(&mut self, other: Vector3<T>)
        requires
            old(self).add_req(other),
        ensures
            *final(self) == old(self).add_spec(other),
    {
        self.x = self.x.add(other.x);
        self.y = self.y.add(other.y);
        self.z = self.z.add(other.z);
    }

    /// `self` becomes `self - other`.
    pub fn sub_assign(&mut self, other: Vector3<T>)
        requires
            old(self).sub_req(other),
        ensures
            *final(self) == old(self).sub_spec(other),
    {
        self.x = self.x.sub(other.x);
        self.y = self.y.sub(other.y);
        self.z = self.z.sub(other.z);
    }

    /// `self` becomes `self * other`.
    pub fn mul_assign(&mut self, other: T)
        requires
            old(self).mul_req(other),
        ensures
            *final(self) == old(self).mul_spec(other),
    {
        self.x = self.x.mul(other);
        self.y = self.y.mul(other);
        self.z = self.z.mul(other);
    }
}

impl<T: Value> From<Vector3<T>> for Point3<T> {
    /// The point with the components of the vector.
    fn from(v: Vector3<T>) -> (r: Self) {
        Point3 {
            x: v.x,
            y: v.y,
            z: v.z,
        }
    }
}

impl<T: Value> vstd::std_specs::convert::FromSpecImpl<Vector3<T>> for Point3<T> {
    open spec fn obeys_from_spec() -> bool {
        true
    }

    open spec fn from_spec(v: Vector3<T>) -> Self {
        Point3 {
            x: v.x,
            y: v.y,
            z: v.z,
        }
    }
}

impl<T: Value> Transformable<T> for Point3<T> {
    open spec fn transform_req(self, t: Transform<T>) -> bool {
        self.carried_req(t.m@)
    }

    open spec fn transform_spec(self, t: Transform<T>) -> Self {
        self.carried(t.m@)
    }

    /// The point in homogeneous coordinates times the matrix, divided by the
    /// fourth coordinate where that is not one.
    fn transform(self, t: Transform<T>) -> (r: Self) {
        let m = &t.m;
        let xp = m[0][0].mul(self.x).add(m[0][1].mul(self.y)).add(m[0][2].mul(self.z)).add(m[0][3]);
        let yp = m[1][0].mul(self.x).add(m[1][1].mul(self.y)).add(m[1][2].mul(self.z)).add(m[1][3]);
        let zp = m[2][0].mul(self.x).add(m[2][1].mul(self.y)).add(m[2][2].mul(self.z)).add(m[2][3]);
        let wp = m[3][0].mul(self.x).add(m[3][1].mul(self.y)).add(m[3][2].mul(self.z)).add(m[3][3]);
        if wp.equals(T::one()) {
            Point3 { x: xp, y: yp, z: zp }
        } else {
            Point3 { x: xp.div(wp), y: yp.div(wp), z: zp.div(wp) }
        }
    }
}

impl<T: Value> std::ops::Index<usize> for Point3<T> {
    type Output = T;

    fn index(&self, i: usize) -> (r: &T)
        ensures
            *r == self.component(i as int),
    {
        match i {
            0 => &self.x,
            1 => &self.y,
            _ => &self.z,
        }
    }
}

impl<T: Value> vstd::std_specs::core::IndexSpecImpl<usize> for Point3<T> {
    open spec fn index_req(&self, i: &usize) -> bool {
        *i <= 2
    }
}

impl<T: Value> std::ops::Add for Point3<T> {
    type Output = Self;

    fn add(self, other: Self) -> (r: Self) {
        Point3 {
            x: self.x.add(other.x),
            y: self.y.add(other.y),
            z: self.z.add(other.z),
        }
    }
}

impl<T: Value> vstd::std_specs::ops::AddSpecImpl for Point3<T> {
    open spec fn obeys_add_spec() -> bool {
        true
    }

    open spec fn add_req(self, other: Self) -> bool {
        self.x.can_add(other.x)
        && self.y.can_add(other.y)
        && self.z.can_add(other.z)
    }

    open spec fn add_spec(self, other: Self) -> Self {
        Point3 {
            x: self.x.plus(other.x),
            y: self.y.plus(other.y),
            z: self.z.plus(other.z),
        }
    }
}

impl<T: Value> std::ops::Add<Vector3<T>> for Point3<T> {
    type Output = Self;

    fn add(self, other: Vector3<T>) -> (r: Self) {
        Point3 {
            x: self.x.add(other.x),
            y: self.y.add(other.y),
            z: self.z.add(other.z),
        }
    }
}

impl<T: Value> vstd::std_specs::ops::AddSpecImpl<Vector3<T>> for Point3<T> {
    open spec fn obeys_add_spec() -> bool {
        true
    }

    open spec fn add_req(self, other: Vector3<T>) -> bool {
        self.x.can_add(other.x)
        && self.y.can_add(other.y)
        && self.z.can_add(other.z)
    }

    open spec fn add_spec(self, other: Vector3<T>) -> Self {
        Point3 {
            x: self.x.plus(other.x),
            y: self.y.plus(other.y),
            z: self.z.plus(other.z),
        }
    }
}

impl<T: Value> std::ops::Sub for Point3<T> {
    type Output = Vector3<T>;

    fn sub(self, other: Self) -> (r: Vector3<T>) {
        Vector3 {
            x: self.x.sub(other.x),
            y: self.y.sub(other.y),
            z: self.z.sub(other.z),
        }
    }
}

impl<T: Value> vstd::std_specs::ops::SubSpecImpl for Point3<T> {
    open spec fn obeys_sub_spec() -> bool {
        true
    }

    open spec fn sub_req(self, other: Self) -> bool {
        self.x.can_sub(other.x)
        && self.y.can_sub(other.y)
        && self.z.can_sub(other.z)
    }

    open spec fn sub_spec(self, other: Self) -> Vector3<T> {
        Vector3 {
            x: self.x.minus(other.x),
            y: self.y.minus(other.y),
            z: self.z.minus(other.z),
        }
    }
}

impl<T: Value> std::ops::Sub<Vector3<T>> for Point3<T> {
    type Output = Self;

    fn sub(self, other: Vector3<T>) -> (r: Self) {
        Point3 {
            x: self.x.sub(other.x),
            y: self.y.sub(other.y),
            z: self.z.sub(other.z),
        }
    }
}

impl<T: Value> vstd::std_specs::ops::SubSpecImpl<Vector3<T>> for Point3<T> {
    open spec fn obeys_sub_spec() -> bool {
        true
    }

    open spec fn sub_req(self, other: Vector3<T>) -> bool {
        self.x.can_sub(other.x)
        && self.y.can_sub(other.y)
        && self.z.can_sub(other.z)
    }

    open spec fn sub_spec(self, other: Vector3<T>) -> Self {
        Point3 {
            x: self.x.minus(other.x),
            y: self.y.minus(other.y),
            z: self.z.minus(other.z),
        }
    }
}

impl<T: Value> std::ops::Mul<T> for Point3<T> {
    type Output = Self;

    fn mul(self, other: T) -> (r: Self) {
        Point3 {
            x: self.x.mul(other),
            y: self.y.mul(other),
            z: self.z.mul(other),
        }
    }
}

impl<T: Value> vstd::std_specs::ops::MulSpecImpl<T> for Point3<T> {
    open spec fn obeys_mul_spec() -> bool {
        true
    }

    open spec fn mul_req(self, other: T) -> bool {
        self.x.can_mul(other)
        && self.y.can_mul(other)
        && self.z.can_mul(other)
    }

    open spec fn mul_spec(self, other: T) -> Self {
        Point3 {
            x: self.x.times(other),
            y: self.y.times(other),
            z: self.z.times(other),
        }
    }
}

impl<T: Value> std::ops::Div<T> for Point3<T> {
    type Output = Self;

    /// Each component times the reciprocal of `other`.
    fn div(self, other: T) -> (r: Self) {
        let inv = T::one().div(other);
        Point3 {
            x: self.x.mul(inv),
            y: self.y.mul(inv),
            z: self.z.mul(inv),
        }
    }
}

impl<T: Value> vstd::std_specs::ops::DivSpecImpl<T> for Point3<T> {
    open spec fn obeys_div_spec() -> bool {
        true
    }

    open spec fn div_req(self, other: T) -> bool {
        self.scaled_down_req(other)
    }

    open spec fn div_spec(self, other: T) -> Self {
        self.scaled_down(other)
    }
}

} // verus!
