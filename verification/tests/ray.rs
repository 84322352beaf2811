use luminary::medium::Medium;
use luminary::point3::Point3;
use luminary::ray::Ray;
use luminary::ray_differential::RayDifferential;
use luminary::transform::Transform;
use luminary::transformable::Transformable;
use luminary::value::Value;
use luminary::vector3::Vector3;

/// A double-precision scalar for the geometric types.
#[derive(Clone, Copy, Debug, PartialEq, PartialOrd)]
struct Real(f64);

fn through_double(x: f64) -> f64 {
    let d: f64 = num::ToPrimitive::to_f64(&x).unwrap();
    num::FromPrimitive::from_f64(d).unwrap()
}

impl Value for Real {
    fn same(self, rhs: Self) -> bool {
        self.0 == rhs.0
    }

    fn less(self, rhs: Self) -> bool {
        self.0 < rhs.0
    }

    fn at_most(self, rhs: Self) -> bool {
        self.0 <= rhs.0
    }

    fn can_add(self, _rhs: Self) -> bool {
        true
    }

    fn plus(self, rhs: Self) -> Self {
        Real(self.0 + rhs.0)
    }

    fn can_sub(self, _rhs: Self) -> bool {
        true
    }

    fn minus(self, rhs: Self) -> Self {
        Real(self.0 - rhs.0)
    }

    fn can_mul(self, _rhs: Self) -> bool {
        true
    }

    fn times(self, rhs: Self) -> Self {
        Real(self.0 * rhs.0)
    }

    fn can_div(self, _rhs: Self) -> bool {
        true
    }

    fn over(self, rhs: Self) -> Self {
        Real(self.0 / rhs.0)
    }

    fn can_neg(self) -> bool {
        true
    }

    fn negated(self) -> Self {
        Real(-self.0)
    }

    fn can_abs(self) -> bool {
        true
    }

    fn magnitude(self) -> Self {
        Real(num::abs(self.0))
    }

    fn can_sqrt(self) -> bool {
        true
    }

    fn root(self) -> Self {
        Real(through_double(self.0.sqrt()))
    }

    fn can_floor(self) -> bool {
        true
    }

    fn floored(self) -> Self {
        Real(through_double(self.0.floor()))
    }

    fn can_ceil(self) -> bool {
        true
    }

    fn ceiled(self) -> Self {
        Real(through_double(self.0.ceil()))
    }

    fn nil() -> Self {
        Real(num::zero())
    }

    fn unit() -> Self {
        Real(num::one())
    }

    fn lowest() -> Self {
        Real(num::Bounded::min_value())
    }

    fn highest() -> Self {
        Real(num::Bounded::max_value())
    }

    fn zero() -> Self {
        Self::nil()
    }

    fn one() -> Self {
        Self::unit()
    }

    fn min_value() -> Self {
        Self::lowest()
    }

    fn max_value() -> Self {
        Self::highest()
    }

    fn equals(self, rhs: Self) -> bool {
        self.same(rhs)
    }

    fn lt(self, rhs: Self) -> bool {
        self.less(rhs)
    }

    fn gt(self, rhs: Self) -> bool {
        rhs.less(self)
    }

    fn le(self, rhs: Self) -> bool {
        self.at_most(rhs)
    }

    fn ge(self, rhs: Self) -> bool {
        rhs.at_most(self)
    }

    fn add(self, rhs: Self) -> Self {
        self.plus(rhs)
    }

    fn sub(self, rhs: Self) -> Self {
        self.minus(rhs)
    }

    fn mul(self, rhs: Self) -> Self {
        self.times(rhs)
    }

    fn div(self, rhs: Self) -> Self {
        self.over(rhs)
    }

    fn neg(self) -> Self {
        self.negated()
    }

    fn abs(self) -> Self {
        self.magnitude()
    }

    fn sqrt(self) -> Self {
        self.root()
    }

    fn floor(self) -> Self {
        self.floored()
    }

    fn ceil(self) -> Self {
        self.ceiled()
    }
}

fn point(p: Point3<Real>) -> (f64, f64, f64) {
    (p.x.0, p.y.0, p.z.0)
}

fn vector(v: Vector3<Real>) -> (f64, f64, f64) {
    (v.x.0, v.y.0, v.z.0)
}

fn ray() -> Ray<Real> {
    Ray::new(
        Point3::new(Real(1.0), Real(2.0), Real(3.0)),
        Vector3::new(Real(0.0), Real(2.0), Real(0.0)),
        Medium {},
        Real(f64::INFINITY),
        Real(0.5),
    )
}

#[test]
fn ray_new_keeps_its_parts() {
    let r = ray();

    assert_eq!((1.0, 2.0, 3.0), point(r.o));
    assert_eq!((0.0, 2.0, 0.0), vector(r.d));
    assert_eq!(f64::INFINITY, r.t_max.0);
    assert_eq!(0.5, r.time.0);
}

#[test]
fn ray_zero_rests_in_the_origin() {
    let r = Ray::zero(Real(f64::INFINITY));

    assert_eq!((0.0, 0.0, 0.0), point(r.o));
    assert_eq!((0.0, 0.0, 0.0), vector(r.d));
    assert_eq!(f64::INFINITY, r.t_max.0);
    assert_eq!(0.0, r.time.0);
}

#[test]
fn ray_zero_of_integers() {
    let r = Ray::zero(i32::MAX);

    assert_eq!((0, 0, 0), (r.o.x, r.o.y, r.o.z));
    assert_eq!((0, 0, 0), (r.d.x, r.d.y, r.d.z));
    assert_eq!(i32::MAX, r.t_max);
    assert_eq!(0, r.time);
}

#[test]
fn ray_at_walks_along_the_direction() {
    let r = ray();

    assert_eq!((1.0, 2.0, 3.0), point(r.at(Real(0.0))));
    assert_eq!((1.0, 5.0, 3.0), point(r.at(Real(1.5))));
    assert_eq!((1.0, 0.0, 3.0), point(r.at(Real(-1.0))));
}

#[test]
fn ray_at_of_integers() {
    let r = Ray::new(Point3::new(1, 2, 3), Vector3::new(1, -1, 2), Medium {}, 100, 0);

    let p = r.at(3);

    assert_eq!((4, -1, 9), (p.x, p.y, p.z));
}

#[test]
fn ray_transform_moves_the_origin_and_keeps_the_extent() {
    let t = Transform::translate(Vector3::new(Real(10.0), Real(20.0), Real(30.0)));

    let r = t.transform(ray());

    assert_eq!((11.0, 22.0, 33.0), point(r.o));
    assert_eq!((0.0, 2.0, 0.0), vector(r.d));
    assert_eq!(f64::INFINITY, r.t_max.0);
    assert_eq!(0.5, r.time.0);
}

#[test]
fn ray_transform_scales_the_direction() {
    let t = Transform::scale(Real(2.0), Real(3.0), Real(4.0));
    let r = Ray::new(
        Point3::new(Real(1.0), Real(1.0), Real(1.0)),
        Vector3::new(Real(1.0), Real(1.0), Real(1.0)),
        Medium {},
        Real(8.0),
        Real(0.0),
    );

    let moved = r.transform(t);

    assert_eq!((2.0, 3.0, 4.0), point(moved.o));
    assert_eq!((2.0, 3.0, 4.0), vector(moved.d));
    assert_eq!(8.0, moved.t_max.0);
}

#[test]
fn ray_transform_of_a_ray_at_rest() {
    let t = Transform::translate(Vector3::new(1, 2, 3));

    let r = Ray::zero(50).transform(t);

    assert_eq!((1, 2, 3), (r.o.x, r.o.y, r.o.z));
    assert_eq!((0, 0, 0), (r.d.x, r.d.y, r.d.z));
    assert_eq!(50, r.t_max);
}

#[test]
fn ray_transform_of_integers() {
    let t = Transform::translate(Vector3::new(1, 2, 3));
    let r = Ray::new(Point3::new(1, 1, 1), Vector3::new(0, 0, -4), Medium {}, 50, 7);

    let moved = t.transform(r);

    assert_eq!((2, 3, 4), (moved.o.x, moved.o.y, moved.o.z));
    assert_eq!((0, 0, -4), (moved.d.x, moved.d.y, moved.d.z));
    assert_eq!(50, moved.t_max);
    assert_eq!(7, moved.time);
}

#[test]
fn ray_differential_new_has_no_neighbours() {
    let r = RayDifferential::new(
        Point3::new(Real(1.0), Real(2.0), Real(3.0)),
        Vector3::new(Real(0.0), Real(2.0), Real(0.0)),
        Medium {},
        Real(9.0),
        Real(0.5),
    );

    assert_eq!((1.0, 2.0, 3.0), point(r.ray.o));
    assert_eq!(9.0, r.ray.t_max.0);
    assert!(r.rx_origin.is_none());
    assert!(r.ry_origin.is_none());
    assert!(r.rx_direction.is_none());
    assert!(r.ry_direction.is_none());
    assert!(!r.has_differentials);
}

#[test]
fn ray_differential_zero_rests_in_the_origin() {
    let r = RayDifferential::zero(Real(f64::INFINITY));

    assert_eq!((0.0, 0.0, 0.0), point(r.ray.o));
    assert_eq!(f64::INFINITY, r.ray.t_max.0);
    assert!(!r.has_differentials);
}

#[test]
fn ray_differential_from_a_ray_keeps_the_ray() {
    let r = RayDifferential::from(ray());

    assert_eq!((1.0, 2.0, 3.0), point(r.ray.o));
    assert_eq!((0.0, 2.0, 0.0), vector(r.ray.d));
    assert!(r.rx_origin.is_none());
    assert!(!r.has_differentials);
}

#[test]
fn ray_differential_at_is_the_ray_at() {
    let r = RayDifferential::from(ray());

    assert_eq!((1.0, 5.0, 3.0), point(r.at(Real(1.5))));
}

#[test]
fn ray_differential_scale_leaves_the_caller_its_copy() {
    let mut r = RayDifferential::from(ray());
    r.rx_origin = Some(Point3::new(Real(2.0), Real(2.0), Real(3.0)));
    r.ry_origin = Some(Point3::new(Real(1.0), Real(3.0), Real(3.0)));
    r.rx_direction = Some(Vector3::new(Real(0.5), Real(2.0), Real(0.0)));
    r.ry_direction = Some(Vector3::new(Real(0.0), Real(2.0), Real(0.5)));

    r.clone().scale_differentials(Real(2.0));

    assert_eq!((2.0, 2.0, 3.0), point(r.rx_origin.unwrap()));
    assert_eq!((0.5, 2.0, 0.0), vector(r.rx_direction.unwrap()));
}
