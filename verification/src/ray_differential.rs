//! A ray with the two neighbouring rays that tell how it spreads.
use vstd::prelude::*;
use crate::medium::Medium;
use crate::point3::Point3;
use crate::ray::Ray;
use crate::value::Value;
use crate::vector3::Vector3;

verus! {

#[derive(Clone, Debug)]
pub struct RayDifferential<T: Value> {
    pub ray: Ray<T>,
    pub rx_origin: Option<Point3<T>>,
    pub ry_origin: Option<Point3<T>>,
    pub rx_direction: Option<Vector3<T>>,
    pub ry_direction: Option<Vector3<T>>,
    pub has_differentials: bool,
}

impl<T: Value> RayDifferential<T> {
    /// The ray without neighbours.
    pub open spec fn of(ray: Ray<T>) -> Self {
        RayDifferential {
            ray,
            rx_origin: None,
            ry_origin: None,
            rx_direction: None,
            ry_direction: None,
            has_differentials: false,
        }
    }

    /// Whether `base + (other - base) * s` is defined for one component.
    pub open spec fn respread_req(base: T, other: T, s: T) -> bool {
        &&& other.can_sub(base)
        &&& other.minus(base).can_mul(s)
        &&& base.can_add(other.minus(base).times(s))
    }

    pub open spec fn scale_differentials_req(self, s: T) -> bool {
        &&& self.rx_origin matches Some(p) && self.ry_origin matches Some(q) && {
            &&& Self::respread_req(self.ray.o.x, p.x, s)
            &&& Self::respread_req(self.ray.o.y, p.y, s)
            &&& Self::respread_req(self.ray.o.z, p.z, s)
            &&& Self::respread_req(self.ray.o.x, q.x, s)
            &&& Self::respread_req(self.ray.o.y, q.y, s)
            &&& Self::respread_req(self.ray.o.z, q.z, s)
        }
        &&& self.rx_direction matches Some(v) && self.ry_direction matches Some(w) && {
            &&& Self::respread_req(self.ray.d.x, v.x, s)
            &&& Self::respread_req(self.ray.d.y, v.y, s)
            &&& Self::respread_req(self.ray.d.z, v.z, s)
            &&& Self::respread_req(self.ray.d.x, w.x, s)
            &&& Self::respread_req(self.ray.d.y, w.y, s)
            &&& Self::respread_req(self.ray.d.z, w.z, s)
        }
    }

    /// The ray with the given parts, without neighbours.
    pub fn new(o: Point3<T>, d: Vector3<T>, medium: Medium, t_max: T, time: T) -> (r: Self)
        ensures
            r == Self::of(Ray { o, d, medium, t_max, time }),
    {
        Self::from(Ray::new(o, d, medium, t_max, time))
    }

    /// The ray at rest in the origin, without neighbours.
    pub fn zero(t_max: T) -> (r: Self)
        ensures
            r.ray.t_max == t_max,
            r == Self::of(r.ray),
            r.ray.o == (Point3 { x: T::nil(), y: T::nil(), z: T::nil() }),
            r.ray.d == (Vector3 { x: T::nil(), y: T::nil(), z: T::nil() }),
            r.ray.time == T::nil(),
    {
        Self::from(Ray::zero(t_max))
    }

    /// The point that the ray reaches at `t`.
    pub fn at(self, t: T) -> (r: Point3<T>)
        requires
            self.ray.at_req(t),
        ensures
            r == self.ray.at_spec(t),
    {
        self.ray.at(t)
    }

    /// Moves the neighbours toward the ray or away from it by the factor `s`,
    /// in the copy that the call was handed: the caller keeps what it had.
    pub fn scale_differentials(self, s: T)
        requires
            self.scale_differentials_req(s),
    {
        let mut this = self;
        let o = this.ray.o;
        let d = this.ray.d;
        this.rx_origin = Some(o + (this.rx_origin.unwrap() - o) * s);
        this.rx_origin = Some(o + (this.ry_origin.unwrap() - o) * s);

        this.rx_direction = Some(d + (this.rx_direction.unwrap() - d) * s);
        this.ry_direction = Some(d + (this.ry_direction.unwrap() - d) * s);
    }
}

impl<T: Value> From<Ray<T>> for RayDifferential<T> {
    /// The ray without neighbours.
    fn from(ray: Ray<T>) -> (r: Self) {
        Self {
            ray,
            rx_origin: None,
            ry_origin: None,
            rx_direction: None,
            ry_direction: None,
            has_differentials: false,
        }
    }
}

impl<T: Value> vstd::std_specs::convert::FromSpecImpl<Ray<T>> for RayDifferential<T> {
    open spec fn obeys_from_spec() -> bool {
        true
    }

    open spec fn from_spec(ray: Ray<T>) -> Self {
        RayDifferential::of(ray)
    }
}

} // verus!
