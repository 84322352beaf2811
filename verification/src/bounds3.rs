//! An axis-aligned box, held as its two extreme corners.
use vstd::prelude::*;
use vstd::std_specs::ops::{AddSpec, SubSpec};
use crate::grid::Grid;
use crate::point3::Point3;
use crate::transform::Transform;
use crate::transformable::Transformable;
use crate::utils::{lerp, lerp_req, lerp_spec};
use crate::value::Value;
use crate::vector3::Vector3;

verus! {

#[derive(Clone, Copy, Debug)]
pub struct Bounds3<T: Value> {
    pub p_min: Point3<T>,
    pub p_max: Point3<T>,
}

/// The vector with all three components equal to `d`.
pub open spec fn uniform<T: Value>(d: T) -> Vector3<T> {
    Vector3 { x: d, y: d, z: d }
}

impl<T: Value> Bounds3<T> {
    /// The box spanned by two points: its lower corner is their component-wise
    /// minimum, its upper corner their component-wise maximum.
    pub open spec fn spanning(p1: Point3<T>, p2: Point3<T>) -> Self {
        Bounds3 { p_min: p1.min_spec(p2), p_max: p1.max_spec(p2) }
    }

    /// Corner `i`: 0 is the lower corner, any other index the upper one.
    pub open spec fn corner_at(self, i: int) -> Point3<T> {
        if i == 0 {
            self.p_min
        } else {
            self.p_max
        }
    }

    /// The box grown to hold `p`.
    pub open spec fn union_spec(self, p: Point3<T>) -> Self {
        Bounds3 { p_min: self.p_min.min_spec(p), p_max: self.p_max.max_spec(p) }
    }

    /// Whether `p` lies in the box, the faces included.
    pub open spec fn inside_spec(self, p: Point3<T>) -> bool {
        &&& self.p_min.x.at_most(p.x) && p.x.at_most(self.p_max.x)
        &&& self.p_min.y.at_most(p.y) && p.y.at_most(self.p_max.y)
        &&& self.p_min.z.at_most(p.z) && p.z.at_most(self.p_max.z)
    }

    pub open spec fn diagonal_req(self) -> bool {
        self.p_max.offset_from_req(self.p_min)
    }

    /// The vector from the lower corner to the upper corner.
    pub open spec fn diagonal_spec(self) -> Vector3<T> {
        self.p_max.offset_from(self.p_min)
    }

    pub open spec fn surface_area_req(self) -> bool {
        let d = self.diagonal_spec();
        let xy = d.x.times(d.y);
        let xz = d.x.times(d.z);
        let yz = d.y.times(d.z);
        &&& self.diagonal_req()
        &&& T::unit().can_add(T::unit())
        &&& d.x.can_mul(d.y)
        &&& d.x.can_mul(d.z)
        &&& d.y.can_mul(d.z)
        &&& xy.can_add(xz)
        &&& xy.plus(xz).can_add(yz)
        &&& T::unit().plus(T::unit()).can_mul(xy.plus(xz).plus(yz))
    }

    /// Twice the sum of the areas of the three faces that meet in a corner.
    pub open spec fn surface_area_spec(self) -> T {
        let d = self.diagonal_spec();
        T::unit().plus(T::unit()).times(
            d.x.times(d.y).plus(d.x.times(d.z)).plus(d.y.times(d.z)),
        )
    }

    pub open spec fn lerp_req(self, t: Point3<T>) -> bool {
        &&& lerp_req(t.x, self.p_min.x, self.p_max.x)
        &&& lerp_req(t.y, self.p_min.y, self.p_max.y)
        &&& lerp_req(t.z, self.p_min.z, self.p_max.z)
    }

    /// The first component of `offset`: the distance of `p` from the lower
    /// corner along x, divided by the extent of the box along x where the box
    /// has one.
    pub open spec fn offset_x(self, p: Point3<T>) -> T {
        if self.p_min.x.less(self.p_max.x) {
            p.x.minus(self.p_min.x).over(self.p_max.x.minus(self.p_min.x))
        } else {
            p.x.minus(self.p_min.x)
        }
    }

    /// The second component of `offset`: where the box has an extent along y,
    /// the first component divided by that extent; else the distance of `p`
    /// from the lower corner along y.
    pub open spec fn offset_y(self, p: Point3<T>) -> T {
        if self.p_min.y.less(self.p_max.y) {
            self.offset_x(p).over(self.p_max.y.minus(self.p_min.y))
        } else {
            p.y.minus(self.p_min.y)
        }
    }

    /// The third component of `offset`: the distance of `p` from the lower
    /// corner along z, divided by the extent of the box along z where the box
    /// has one.
    pub open spec fn offset_z(self, p: Point3<T>) -> T {
        if self.p_min.z.less(self.p_max.z) {
            p.z.minus(self.p_min.z).over(self.p_max.z.minus(self.p_min.z))
        } else {
            p.z.minus(self.p_min.z)
        }
    }

    pub open spec fn offset_req(self, p: Point3<T>) -> bool {
        &&& p.offset_from_req(self.p_min)
        &&& self.p_min.x.less(self.p_max.x) ==> {
            &&& self.p_max.x.can_sub(self.p_min.x)
            &&& p.x.minus(self.p_min.x).can_div(self.p_max.x.minus(self.p_min.x))
        }
        &&& self.p_min.y.less(self.p_max.y) ==> {
            &&& self.p_max.y.can_sub(self.p_min.y)
            &&& self.offset_x(p).can_div(self.p_max.y.minus(self.p_min.y))
        }
        &&& self.p_min.z.less(self.p_max.z) ==> {
            &&& self.p_max.z.can_sub(self.p_min.z)
            &&& p.z.minus(self.p_min.z).can_div(self.p_max.z.minus(self.p_min.z))
        }
    }

    /// The point midway between the two corners: their sum, each component
    /// times the reciprocal of two.
    pub open spec fn center(self) -> Point3<T> {
        let sum = Point3 {
            x: self.p_min.x.plus(self.p_max.x),
            y: self.p_min.y.plus(self.p_max.y),
            z: self.p_min.z.plus(self.p_max.z),
        };
        sum.scaled_down(T::unit().plus(T::unit()))
    }

    pub open spec fn bounding_sphere_req(self) -> bool {
        let sum = Point3 {
            x: self.p_min.x.plus(self.p_max.x),
            y: self.p_min.y.plus(self.p_max.y),
            z: self.p_min.z.plus(self.p_max.z),
        };
        &&& self.p_min.x.can_add(self.p_max.x)
        &&& self.p_min.y.can_add(self.p_max.y)
        &&& self.p_min.z.can_add(self.p_max.z)
        &&& T::unit().can_add(T::unit())
        &&& sum.scaled_down_req(T::unit().plus(T::unit()))
        &&& self.inside_spec(self.center()) ==> self.p_max.distance_req(self.center())
    }

    /// The eight corners in the order in which `transform` visits them.
    pub open spec fn vertex(self, k: int) -> Point3<T> {
        let lo = self.p_min;
        let hi = self.p_max;
        if k == 0 {
            Point3 { x: lo.x, y: lo.y, z: lo.z }
        } else if k == 1 {
            Point3 { x: hi.x, y: lo.y, z: lo.z }
        } else if k == 2 {
            Point3 { x: lo.x, y: hi.y, z: lo.z }
        } else if k == 3 {
            Point3 { x: lo.x, y: lo.y, z: hi.z }
        } else if k == 4 {
            Point3 { x: lo.x, y: hi.y, z: hi.z }
        } else if k == 5 {
            Point3 { x: hi.x, y: hi.y, z: lo.z }
        } else if k == 6 {
            Point3 { x: hi.x, y: lo.y, z: hi.z }
        } else {
            Point3 { x: hi.x, y: hi.y, z: hi.z }
        }
    }

    /// The box spanned by two points.
    pub fn new(p1: Point3<T>, p2: Point3<T>) -> (r: Self)
        ensures
            r == Self::spanning(p1, p2),
    {
        let p_min = Point3 { x: p1.x.min(p2.x), y: p1.y.min(p2.y), z: p1.z.min(p2.z) };
        let p_max = Point3 { x: p1.x.max(p2.x), y: p1.y.max(p2.y), z: p1.z.max(p2.z) };
        Self { p_min, p_max }
    }

    /// The empty box: its lower corner holds the greatest value of the scalar,
    /// its upper corner the least, so that the union with any point is that
    /// point.
    pub fn zero() -> (r: Self)
        ensures
            r == (Bounds3 {
                p_min: Point3 { x: T::highest(), y: T::highest(), z: T::highest() },
                p_max: Point3 { x: T::lowest(), y: T::lowest(), z: T::lowest() },
            }),
    {
        let min_num = T::min_value();
        let max_num = T::max_value();
        Self {
            p_min: Point3 { x: max_num, y: max_num, z: max_num },
            p_max: Point3 { x: min_num, y: min_num, z: min_num },
        }
    }

    /// One of the eight corners: bit 0 of `corner` picks the upper corner's
    /// `x`, bit 1 its `y`, bit 2 its `z`; a cleared bit picks the lower
    /// corner's.
    pub fn corner(self, corner: usize) -> (r: Point3<T>)
        ensures
            r == (Point3 {
                x: self.corner_at((corner & 1) as int).x,
                y: self.corner_at(if corner & 2 > 0 { 1int } else { 0int }).y,
                z: self.corner_at(if corner & 4 > 0 { 1int } else { 0int }).z,
            }),
    {
        let x_idx: usize = corner & 1;
        let y_idx: usize = if corner & 2 > 0 {
            1
        } else {
            0
        };
        let z_idx: usize = if corner & 4 > 0 {
            1
        } else {
            0
        };
        assert(corner & 1 <= 1) by (bit_vector);
        Point3 { x: self[x_idx].x, y: self[y_idx].y, z: self[z_idx].z }
    }

    /// The box grown to hold `p`.
    pub fn union(self, p: Point3<T>) -> (r: Self)
        ensures
            r == self.union_spec(p),
    {
        Self {
            p_min: Point3 {
                x: self.p_min.x.min(p.x),
                y: self.p_min.y.min(p.y),
                z: self.p_min.z.min(p.z),
            },
            p_max: Point3 {
                x: self.p_max.x.max(p.x),
                y: self.p_max.y.max(p.y),
                z: self.p_max.z.max(p.z),
            },
        }
    }

    /// The box common to both: the greater of the lower corners and the lesser
    /// of the upper corners, component by component.
    pub fn intersection(self, b: Bounds3<T>) -> (r: Self)
        ensures
            r == (Bounds3 { p_min: self.p_min.max_spec(b.p_min), p_max: self.p_max.min_spec(b.p_max) }),
    {
        Self {
            p_min: Point3 {
                x: self.p_min.x.max(b.p_min.x),
                y: self.p_min.y.max(b.p_min.y),
                z: self.p_min.z.max(b.p_min.z),
            },
            p_max: Point3 {
                x: self.p_max.x.min(b.p_max.x),
                y: self.p_max.y.min(b.p_max.y),
                z: self.p_max.z.min(b.p_max.z),
            },
        }
    }

    /// Whether the extents of the two boxes meet along each axis. Along z the
    /// upper face of `self` is held against the lower bound of `b` along x.
    pub fn overlap(self, b: Bounds3<T>) -> (r: bool)
        ensures
            r == {
                &&& b.p_min.x.at_most(self.p_max.x) && self.p_min.x.at_most(b.p_max.x)
                &&& b.p_min.y.at_most(self.p_max.y) && self.p_min.y.at_most(b.p_max.y)
                &&& b.p_min.x.at_most(self.p_max.z) && self.p_min.z.at_most(b.p_max.z)
            },
    {
        let x = self.p_max.x.ge(b.p_min.x) && self.p_min.x.le(b.p_max.x);
        let y = self.p_max.y.ge(b.p_min.y) && self.p_min.y.le(b.p_max.y);
        let z = self.p_max.z.ge(b.p_min.x) && self.p_min.z.le(b.p_max.z);
        x && y && z
    }

    /// Whether `p` lies in the box, the faces included.
    pub fn inside(self, p: Point3<T>) -> (r: bool)
        ensures
            r == self.inside_spec(p),
    {
        let x = p.x.ge(self.p_min.x) && p.x.le(self.p_max.x);
        let y = p.y.ge(self.p_min.y) && p.y.le(self.p_max.y);
        let z = p.z.ge(self.p_min.z) && p.z.le(self.p_max.z);
        x && y && z
    }

    /// Whether `p` lies in the box, the upper faces excluded.
    pub fn inside_exclusive(self, p: Point3<T>) -> (r: bool)
        ensures
            r == {
                &&& self.p_min.x.at_most(p.x) && p.x.less(self.p_max.x)
                &&& self.p_min.y.at_most(p.y) && p.y.less(self.p_max.y)
                &&& self.p_min.z.at_most(p.z) && p.z.less(self.p_max.z)
            },
    {
        let x = p.x.ge(self.p_min.x) && p.x.lt(self.p_max.x);
        let y = p.y.ge(self.p_min.y) && p.y.lt(self.p_max.y);
        let z = p.z.ge(self.p_min.z) && p.z.lt(self.p_max.z);
        x && y && z
    }

    /// The box with every face moved outward by `delta`.
    pub fn expand(self, delta: T) -> (r: Self)
        requires
            self.p_min.sub_req(uniform(delta)),
            self.p_max.add_req(uniform(delta)),
        ensures
            r == (Bounds3 {
                p_min: self.p_min.sub_spec(uniform(delta)),
                p_max: self.p_max.add_spec(uniform(delta)),
            }),
    {
        Self {
            p_min: self.p_min - Vector3 { x: delta, y: delta, z: delta },
            p_max: self.p_max + Vector3 { x: delta, y: delta, z: delta },
        }
    }

    /// The vector from the lower corner to the upper corner.
    pub fn diagonal(self) -> (r: Vector3<T>)
        requires
            self.diagonal_req(),
        ensures
            r == self.diagonal_spec(),
    {
        self.p_max - self.p_min
    }

    /// The area of the six faces.
    pub fn surface_area(self) -> (r: T)
        requires
            self.surface_area_req(),
        ensures
            r == self.surface_area_spec(),
    {
        let d = self.diagonal();
        T::one().add(T::one()).mul(d.x.mul(d.y).add(d.x.mul(d.z)).add(d.y.mul(d.z)))
    }

    /// The axis along which the box is longest: 0 where the extent along x is
    /// strictly greater than both others, else 1 where the extent along y is
    /// strictly greater than that along z, else 2.
    pub fn maximum_extent(self) -> (r: usize)
        requires
            self.diagonal_req(),
        ensures
            r == ({
                let d = self.diagonal_spec();
                if d.y.less(d.x) && d.z.less(d.x) {
                    0usize
                } else if d.z.less(d.y) {
                    1usize
                } else {
                    2usize
                }
            }),
    {
        let d = self.diagonal();
        if d.x.gt(d.y) && d.x.gt(d.z) {
            return 0;
        }
        if d.y.gt(d.z) {
            return 1;
        }
        return 2;
    }

    /// The point whose components are the blends of the two corners with the
    /// weights that `t` gives for each axis.
    pub fn lerp(self, t: Point3<T>) -> (r: Point3<T>)
        requires
            self.lerp_req(t),
        ensures
            r == (Point3 {
                x: lerp_spec(t.x, self.p_min.x, self.p_max.x),
                y: lerp_spec(t.y, self.p_min.y, self.p_max.y),
                z: lerp_spec(t.z, self.p_min.z, self.p_max.z),
            }),
    {
        Point3 {
            x: lerp(t.x, self.p_min.x, self.p_max.x),
            y: lerp(t.y, self.p_min.y, self.p_max.y),
            z: lerp(t.z, self.p_min.z, self.p_max.z),
        }
    }

    /// The position of `p` relative to the box.
    pub fn offset(self, p: Point3<T>) -> (r: Vector3<T>)
        requires
            self.offset_req(p),
        ensures
            r == (Vector3 { x: self.offset_x(p), y: self.offset_y(p), z: self.offset_z(p) }),
    {
        let mut o = p - self.p_min;
        if self.p_max.x.gt(self.p_min.x) {
            o.x = o.x.div(self.p_max.x.sub(self.p_min.x));
        }
        if self.p_max.y.gt(self.p_min.y) {
            o.y = o.x.div(self.p_max.y.sub(self.p_min.y));
        }
        if self.p_max.z.gt(self.p_min.z) {
            o.z = o.z.div(self.p_max.z.sub(self.p_min.z));
        }
        o
    }

    /// The center of the box, and the distance from it to the upper corner
    /// where the center lies in the box, zero where it does not.
    pub fn bounding_sphere(self) -> (r: (Point3<T>, T))
        requires
            self.bounding_sphere_req(),
        ensures
            r.0 == self.center(),
            r.1 == (if self.inside_spec(self.center()) {
                self.p_max.offset_from(self.center()).length_spec()
            } else {
                T::nil()
            }),
    {
        let center = (self.p_min + self.p_max) / T::one().add(T::one());
        let mut radius = T::zero();
        if self.inside(center) {
            radius = self.p_max.distance(center)
        }
        (center, radius)
    }
}

impl<T: Value> Transformable<T> for Bounds3<T> {
    open spec fn transform_req(self, t: Transform<T>) -> bool {
        forall|k: int| 0 <= k < 8 ==> (#[trigger] self.vertex(k)).carried_req(t.m@)
    }

    /// The box spanned by the eight corners, each carried through the transform.
    open spec fn transform_spec(self, t: Transform<T>) -> Self {
        let g = t.m@;
        let c0 = self.vertex(0).carried(g);
        Bounds3::spanning(c0, c0).union_spec(self.vertex(1).carried(g)).union_spec(
            self.vertex(2).carried(g),
        ).union_spec(self.vertex(3).carried(g)).union_spec(self.vertex(4).carried(g)).union_spec(
            self.vertex(5).carried(g),
        ).union_spec(self.vertex(6).carried(g)).union_spec(self.vertex(7).carried(g))
    }

    #[verifier::rlimit(30)]
    fn transform(self, t: Transform<T>) -> (r: Self) {
        assert(self.vertex(0).carried_req(t.m@));
        assert(self.vertex(1).carried_req(t.m@));
        assert(self.vertex(2).carried_req(t.m@));
        assert(self.vertex(3).carried_req(t.m@));
        assert(self.vertex(4).carried_req(t.m@));
        assert(self.vertex(5).carried_req(t.m@));
        assert(self.vertex(6).carried_req(t.m@));
        assert(self.vertex(7).carried_req(t.m@));
        let mut result = Bounds3::from(
            t.transform(Point3 { x: self.p_min.x, y: self.p_min.y, z: self.p_min.z }),
        );
        result = result.union(
            t.transform(Point3 { x: self.p_max.x, y: self.p_min.y, z: self.p_min.z }),
        );
        result = result.union(
            t.transform(Point3 { x: self.p_min.x, y: self.p_max.y, z: self.p_min.z }),
        );
        result = result.union(
            t.transform(Point3 { x: self.p_min.x, y: self.p_min.y, z: self.p_max.z }),
        );
        result = result.union(
            t.transform(Point3 { x: self.p_min.x, y: self.p_max.y, z: self.p_max.z }),
        );
        result = result.union(
            t.transform(Point3 { x: self.p_max.x, y: self.p_max.y, z: self.p_min.z }),
        );
        result = result.union(
            t.transform(Point3 { x: self.p_max.x, y: self.p_min.y, z: self.p_max.z }),
        );
        result = result.union(
            t.transform(Point3 { x: self.p_max.x, y: self.p_max.y, z: self.p_max.z }),
        );
        result
    }
}

impl<T: Value> From<Point3<T>> for Bounds3<T> {
    /// The box that holds the one point.
    fn from(p: Point3<T>) -> (r: Self) {
        Self::new(p, p)
    }
}

impl<T: Value> vstd::std_specs::convert::FromSpecImpl<Point3<T>> for Bounds3<T> {
    open spec fn obeys_from_spec() -> bool {
        true
    }

    open spec fn from_spec(p: Point3<T>) -> Self {
        Bounds3::spanning(p, p)
    }
}

impl<T: Value> std::ops::Index<usize> for Bounds3<T> {
    type Output = Point3<T>;

    fn index(&self, i: usize) -> (r: &Point3<T>)
        ensures
            *r == self.corner_at(i as int),
    {
        match i {
            0 => &self.p_min,
            _ => &self.p_max,
        }
    }
}

impl<T: Value> vstd::std_specs::core::IndexSpecImpl<usize> for Bounds3<T> {
    open spec fn index_req(&self, i: &usize) -> bool {
        *i <= 1
    }
}

/// Each face of a box carried through a transform passes through one of the
/// eight carried corners: the box is the tightest that holds them.
#[verifier::rlimit(40)]
pub proof fn lemma_transformed_box_is_tight<T: Value>(b: Bounds3<T>, t: Transform<T>)
    ensures
        ({
            let moved = b.transform_spec(t);
            let g = t.m@;
            &&& exists|k: int| 0 <= k < 8 && moved.p_min.x == (#[trigger] b.vertex(k)).carried(g).x
            &&& exists|k: int| 0 <= k < 8 && moved.p_min.y == (#[trigger] b.vertex(k)).carried(g).y
            &&& exists|k: int| 0 <= k < 8 && moved.p_min.z == (#[trigger] b.vertex(k)).carried(g).z
            &&& exists|k: int| 0 <= k < 8 && moved.p_max.x == (#[trigger] b.vertex(k)).carried(g).x
            &&& exists|k: int| 0 <= k < 8 && moved.p_max.y == (#[trigger] b.vertex(k)).carried(g).y
            &&& exists|k: int| 0 <= k < 8 && moved.p_max.z == (#[trigger] b.vertex(k)).carried(g).z
        }),
{
    let g = t.m@;
    let c = |k: int| b.vertex(k).carried(g);
    let h0 = Bounds3::spanning(c(0), c(0));
    let h1 = h0.union_spec(c(1));
    let h2 = h1.union_spec(c(2));
    let h3 = h2.union_spec(c(3));
    let h4 = h3.union_spec(c(4));
    let h5 = h4.union_spec(c(5));
    let h6 = h5.union_spec(c(6));
    let h7 = h6.union_spec(c(7));
    assert(attained(h0, b, g, 0));
    assert(attained(h1, b, g, 1));
    assert(attained(h2, b, g, 2));
    assert(attained(h3, b, g, 3));
    assert(attained(h4, b, g, 4));
    assert(attained(h5, b, g, 5));
    assert(attained(h6, b, g, 6));
    assert(attained(h7, b, g, 7));
}

/// Whether each bound of `h` is a coordinate of one of the first `n + 1`
/// corners of `b`, carried through `g`.
pub open spec fn attained<T: Value>(h: Bounds3<T>, b: Bounds3<T>, g: Grid<T>, n: int) -> bool {
    &&& exists|k: int| 0 <= k <= n && h.p_min.x == (#[trigger] b.vertex(k)).carried(g).x
    &&& exists|k: int| 0 <= k <= n && h.p_min.y == (#[trigger] b.vertex(k)).carried(g).y
    &&& exists|k: int| 0 <= k <= n && h.p_min.z == (#[trigger] b.vertex(k)).carried(g).z
    &&& exists|k: int| 0 <= k <= n && h.p_max.x == (#[trigger] b.vertex(k)).carried(g).x
    &&& exists|k: int| 0 <= k <= n && h.p_max.y == (#[trigger] b.vertex(k)).carried(g).y
    &&& exists|k: int| 0 <= k <= n && h.p_max.z == (#[trigger] b.vertex(k)).carried(g).z
}

} // verus!
