//! A ray: an origin, a direction, and the stretch of it that counts.
use vstd::prelude::*;
use vstd::std_specs::ops::{AddSpec, MulSpec};
use crate::medium::Medium;
use crate::point3::Point3;
use crate::transform::Transform;
use crate::transformable::Transformable;
use crate::value::Value;
use crate::vector3::Vector3;

verus! {

#[derive(Clone, Copy, Debug)]
pub struct Ray<T: Value> {
    pub o: Point3<T>,
    pub d: Vector3<T>,
    pub medium: Medium,
    pub t_max: T,
    pub time: T,
}

/// The vector of three zeros.
pub open spec fn zero_vector<T: Value>() -> Vector3<T> {
    Vector3 { x: T::nil(), y: T::nil(), z: T::nil() }
}

impl<T: Value> Ray<T> {
    pub open spec fn at_req(self, t: T) -> bool {
        &&& self.d.x.can_mul(t) && self.o.x.can_add(self.d.x.times(t))
        &&& self.d.y.can_mul(t) && self.o.y.can_add(self.d.y.times(t))
        &&& self.d.z.can_mul(t) && self.o.z.can_add(self.d.z.times(t))
    }

    /// The point `o + d * t`.
    pub open spec fn at_spec(self, t: T) -> Point3<T> {
        Point3 {
            x: self.o.x.plus(self.d.x.times(t)),
            y: self.o.y.plus(self.d.y.times(t)),
            z: self.o.z.plus(self.d.z.times(t)),
        }
    }

    /// The direction under the transform `t`.
    pub open spec fn moved_direction(self, t: Transform<T>) -> Vector3<T> {
        Vector3 {
            x: self.d.row_applied(t.m@, 0),
            y: self.d.row_applied(t.m@, 1),
            z: self.d.row_applied(t.m@, 2),
        }
    }

    /// The magnitudes of the moved direction.
    pub open spec fn moved_magnitudes(self, t: Transform<T>) -> Vector3<T> {
        let d = self.moved_direction(t);
        Vector3 { x: d.x.magnitude(), y: d.y.magnitude(), z: d.z.magnitude() }
    }

    /// Whether the moved direction has a length: the dot product with itself
    /// is greater than zero.
    pub open spec fn moved_has_length(self, t: Transform<T>) -> bool {
        let d = self.moved_direction(t);
        T::nil().less(d.dot_spec(d))
    }

    /// How far the origin is pushed along the moved direction to make up for
    /// the error of its own move. The error is taken to be zero in every
    /// component.
    pub open spec fn push(self, t: Transform<T>) -> T {
        let d = self.moved_direction(t);
        self.moved_magnitudes(t).dot_spec(zero_vector()).over(d.dot_spec(d))
    }

    /// The origin under the transform `t`, pushed along the moved direction
    /// where that has a length.
    pub open spec fn moved_origin(self, t: Transform<T>) -> Point3<T> {
        let o = self.o.carried(t.m@);
        let d = self.moved_direction(t);
        let dt = self.push(t);
        if self.moved_has_length(t) {
            Point3 {
                x: o.x.plus(d.x.times(dt)),
                y: o.y.plus(d.y.times(dt)),
                z: o.z.plus(d.z.times(dt)),
            }
        } else {
            o
        }
    }

    pub open spec fn moved_req(self, t: Transform<T>) -> bool {
        let o = self.o.carried(t.m@);
        let d = self.moved_direction(t);
        let dt = self.push(t);
        &&& self.o.carried_req(t.m@)
        &&& self.d.row_applied_req(t.m@, 0)
        &&& self.d.row_applied_req(t.m@, 1)
        &&& self.d.row_applied_req(t.m@, 2)
        &&& d.dot_req(d)
        &&& self.moved_has_length(t) ==> {
            &&& d.x.can_abs()
            &&& d.y.can_abs()
            &&& d.z.can_abs()
            &&& self.moved_magnitudes(t).dot_req(zero_vector())
            &&& self.moved_magnitudes(t).dot_spec(zero_vector()).can_div(d.dot_spec(d))
            &&& d.x.can_mul(dt) && o.x.can_add(d.x.times(dt))
            &&& d.y.can_mul(dt) && o.y.can_add(d.y.times(dt))
            &&& d.z.can_mul(dt) && o.z.can_add(d.z.times(dt))
            &&& self.t_max.can_sub(dt)
        }
    }

    /// The ray with the given parts.
    pub fn new(o: Point3<T>, d: Vector3<T>, medium: Medium, t_max: T, time: T) -> (r: Self)
        ensures
            r == (Ray { o, d, medium, t_max, time }),
    {
        Self { o, d, medium, t_max, time }
    }

    /// The ray at rest in the origin at time zero, which counts up to `t_max`.
    pub fn zero(t_max: T) -> (r: Self)
        ensures
            r == (Ray {
                o: Point3 { x: T::nil(), y: T::nil(), z: T::nil() },
                d: zero_vector(),
                medium: Medium {  },
                t_max,
                time: T::nil(),
            }),
    {
        Self::new(
            Point3::zero(),
            Vector3 { x: T::zero(), y: T::zero(), z: T::zero() },
            Medium {  },
            t_max,
            T::zero(),
        )
    }

    /// The point that the ray reaches at `t`.
    pub fn at(self, t: T) -> (r: Point3<T>)
        requires
            self.at_req(t),
        ensures
            r == self.at_spec(t),
    {
        self.o + self.d * t
    }
}

impl<T: Value> Transformable<T> for Ray<T> {
    open spec fn transform_req(self, t: Transform<T>) -> bool {
        self.moved_req(t)
    }

    open spec fn transform_spec(self, t: Transform<T>) -> Self {
        Ray {
            o: self.moved_origin(t),
            d: self.moved_direction(t),
            medium: self.medium,
            t_max: if self.moved_has_length(t) {
                self.t_max.minus(self.push(t))
            } else {
                self.t_max
            },
            time: self.time,
        }
    }

    /// Origin and direction are carried through the transform. The origin is
    /// then pushed along the direction, and the extent shortened, by what the
    /// error of the origin calls for.
    fn transform(self, t: Transform<T>) -> (r: Self) {
        let o_error = Vector3 { x: T::zero(), y: T::zero(), z: T::zero() };

        let mut o = t.transform(self.o);
        let d = t.transform(self.d);

        let length_squared = d.length_squared();
        let mut t_max = self.t_max;

        if length_squared.gt(T::zero()) {
            let dt = d.abs().dot(o_error).div(length_squared);
            o.add_assign(d * dt);
            t_max = t_max.sub(dt);
        }
        Ray { o, d, t_max, time: self.time, medium: self.medium }
    }
}

} // verus!
