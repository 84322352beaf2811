//! An axis-aligned rectangle, held as its two extreme corners.
use vstd::prelude::*;
use crate::point2::Point2;
use crate::value::Value;

verus! {

#[derive(Clone, Debug)]
pub struct Bounds2<T: Value> {
    pub p_min: Point2<T>,
    pub p_max: Point2<T>,
}

impl<T: Value> Bounds2<T> {
    /// The rectangle spanned by two points: its lower corner is their
    /// component-wise minimum, its upper corner their component-wise maximum.
    pub open spec fn spanning(p1: Point2<T>, p2: Point2<T>) -> Self {
        Bounds2 { p_min: p1.min_spec(p2), p_max: p1.max_spec(p2) }
    }

    /// Corner `i`: 0 is the lower corner, any other index the upper one.
    pub open spec fn corner_at(self, i: int) -> Point2<T> {
        if i == 0 {
            self.p_min
        } else {
            self.p_max
        }
    }

    /// The rectangle spanned by two points.
    pub fn new(p1: Point2<T>, p2: Point2<T>) -> (r: Self)
        ensures
            r == Self::spanning(p1, p2),
    {
        let p_min = Point2 { x: p1.x.min(p2.x), y: p1.y.min(p2.y) };
        let p_max = Point2 { x: p1.x.max(p2.x), y: p1.y.max(p2.y) };
        Self { p_min, p_max }
    }

    /// The empty rectangle: its lower corner holds the greatest value of the
    /// scalar, its upper corner the least, so that the union with any point is
    /// that point.
    pub fn zero() -> (r: Self)
        ensures
            r == (Bounds2 {
                p_min: Point2 { x: T::highest(), y: T::highest() },
                p_max: Point2 { x: T::lowest(), y: T::lowest() },
            }),
    {
        let min_num = T::min_value();
        let max_num = T::max_value();
        Self {
            p_min: Point2 { x: max_num, y: max_num },
            p_max: Point2 { x: min_num, y: min_num },
        }
    }
}

impl<T: Value> From<Point2<T>> for Bounds2<T> {
    /// The rectangle that holds the one point.
    fn from(p: Point2<T>) -> (r: Self) {
        Self::new(p, p)
    }
}

impl<T: Value> vstd::std_specs::convert::FromSpecImpl<Point2<T>> for Bounds2<T> {
    open spec fn obeys_from_spec() -> bool {
        true
    }

    open spec fn from_spec(p: Point2<T>) -> Self {
        Bounds2::spanning(p, p)
    }
}

impl<T: Value> std::ops::Index<usize> for Bounds2<T> {
    type Output = Point2<T>;

    fn index(&self, i: usize) -> (r: &Point2<T>)
        ensures
            *r == self.corner_at(i as int),
    {
        match i {
            0 => &self.p_min,
            _ => &self.p_max,
        }
    }
}

impl<T: Value> vstd::std_specs::core::IndexSpecImpl<usize> for Bounds2<T> {
    open spec fn index_req(&self, i: &usize) -> bool {
        *i <= 1
    }
}

} // verus!
