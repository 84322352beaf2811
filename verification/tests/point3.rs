use luminary::point3::Point3;
use luminary::value::Value;
use luminary::vector3::Vector3;

/// A double-precision scalar for the geometric types.
#[derive(Clone, Copy, Debug, PartialEq, PartialOrd)]
struct Real(f64);

fn through_double(x: f64) -> f64 {
    let d: f64 = num::ToPrimitive::to_f64(&x).unwrap();
    num::FromPrimitive::from_f64(d).unwrap()
}

impl Value for Real {
    fn same(self, rhs: Self) -> bool {
        self.0 == rhs.0
    }

    fn less(self, rhs: Self) -> bool {
        self.0 < rhs.0
    }

    fn at_most(self, rhs: Self) -> bool {
        self.0 <= rhs.0
    }

    fn can_add(self, _rhs: Self) -> bool {
        true
    }

    fn plus(self, rhs: Self) -> Self {
        Real(self.0 + rhs.0)
    }

    fn can_sub(self, _rhs: Self) -> bool {
        true
    }

    fn minus(self, rhs: Self) -> Self {
        Real(self.0 - rhs.0)
    }

    fn can_mul(self, _rhs: Self) -> bool {
        true
    }

    fn times(self, rhs: Self) -> Self {
        Real(self.0 * rhs.0)
    }

    fn can_div(self, _rhs: Self) -> bool {
        true
    }

    fn over(self, rhs: Self) -> Self {
        Real(self.0 / rhs.0)
    }

    fn can_neg(self) -> bool {
        true
    }

    fn negated(self) -> Self {
        Real(-self.0)
    }

    fn can_abs(self) -> bool {
        true
    }

    fn magnitude(self) -> Self {
        Real(num::abs(self.0))
    }

    fn can_sqrt(self) -> bool {
        true
    }

    fn root(self) -> Self {
        Real(through_double(self.0.sqrt()))
    }

    fn can_floor(self) -> bool {
        true
    }

    fn floored(self) -> Self {
        Real(through_double(self.0.floor()))
    }

    fn can_ceil(self) -> bool {
        true
    }

    fn ceiled(self) -> Self {
        Real(through_double(self.0.ceil()))
    }

    fn nil() -> Self {
        Real(num::zero())
    }

    fn unit() -> Self {
        Real(num::one())
    }

    fn lowest() -> Self {
        Real(num::Bounded::min_value())
    }

    fn highest() -> Self {
        Real(num::Bounded::max_value())
    }

    fn zero() -> Self {
        Self::nil()
    }

    fn one() -> Self {
        Self::unit()
    }

    fn min_value() -> Self {
        Self::lowest()
    }

    fn max_value() -> Self {
        Self::highest()
    }

    fn equals(self, rhs: Self) -> bool {
        self.same(rhs)
    }

    fn lt(self, rhs: Self) -> bool {
        self.less(rhs)
    }

    fn gt(self, rhs: Self) -> bool {
        rhs.less(self)
    }

    fn le(self, rhs: Self) -> bool {
        self.at_most(rhs)
    }

    fn ge(self, rhs: Self) -> bool {
        rhs.at_most(self)
    }

    fn add(self, rhs: Self) -> Self {
        self.plus(rhs)
    }

    fn sub(self, rhs: Self) -> Self {
        self.minus(rhs)
    }

    fn mul(self, rhs: Self) -> Self {
        self.times(rhs)
    }

    fn div(self, rhs: Self) -> Self {
        self.over(rhs)
    }

    fn neg(self) -> Self {
        self.negated()
    }

    fn abs(self) -> Self {
        self.magnitude()
    }

    fn sqrt(self) -> Self {
        self.root()
    }

    fn floor(self) -> Self {
        self.floored()
    }

    fn ceil(self) -> Self {
        self.ceiled()
    }
}

#[test]
fn point3_new() {
    let p = Point3::new(Real(1.0), Real(2.0), Real(3.0));

    assert_eq!(Real(1.0), p.x);
    assert_eq!(Real(2.0), p.y);
    assert_eq!(Real(3.0), p.z);
}

#[test]
fn point3_new_int() {
    let p = Point3::new(1, 2, 3);

    assert_eq!(1, p.x);
    assert_eq!(2, p.y);
    assert_eq!(3, p.z);
}

#[test]
fn point3_new_zero() {
    let p: Point3<Real> = Point3::zero();

    assert_eq!(Real(0.0), p.x);
    assert_eq!(Real(0.0), p.y);
    assert_eq!(Real(0.0), p.z);
}

#[test]
fn point3_new_zero_int() {
    let p: Point3<i32> = Point3::zero();

    assert_eq!(0, p.x);
    assert_eq!(0, p.y);
    assert_eq!(0, p.z);
}

#[test]
fn distance() {
    let p1 = Point3::new(Real(2.0), Real(4.0), Real(6.0));
    let p2 = Point3::new(Real(1.0), Real(2.0), Real(3.0));

    let distance = p1.distance(p2);

    assert_eq!(Real(3.7416573867739413), distance);
}

#[test]
fn distance_squared() {
    let p1 = Point3::new(Real(2.0), Real(4.0), Real(6.0));
    let p2 = Point3::new(Real(1.0), Real(2.0), Real(3.0));

    let distance_squared = p1.distance_squared(p2);

    assert_eq!(Real(14.0), distance_squared);
}

#[test]
fn lerp() {
    let p1 = Point3::new(Real(2.0), Real(2.0), Real(2.0));
    let p2 = Point3::new(Real(6.0), Real(6.0), Real(6.0));

    let lerp = p1.lerp(p2, Real(0.5));

    assert_eq!(Real(4.0), lerp.x);
    assert_eq!(Real(4.0), lerp.y);
    assert_eq!(Real(4.0), lerp.z);
}

#[test]
fn point3_min() {
    let p1 = Point3::new(Real(1.0), Real(2.0), Real(3.0));
    let p2 = Point3::new(Real(3.0), Real(2.0), Real(1.0));

    let min = p1.min(p2);

    assert_eq!(Real(1.0), min.x);
    assert_eq!(Real(2.0), min.y);
    assert_eq!(Real(1.0), min.z);
}

#[test]
fn point3_max() {
    let p1 = Point3::new(Real(1.0), Real(2.0), Real(3.0));
    let p2 = Point3::new(Real(3.0), Real(2.0), Real(1.0));

    let min = p1.max(p2);

    assert_eq!(Real(3.0), min.x);
    assert_eq!(Real(2.0), min.y);
    assert_eq!(Real(3.0), min.z);
}

#[test]
fn point3_floor() {
    let p = Point3::new(Real(1.1), Real(2.2), Real(3.3));

    let floor = p.floor();

    assert_eq!(Real(1.0), floor.x);
    assert_eq!(Real(2.0), floor.y);
    assert_eq!(Real(3.0), floor.z);
}

#[test]
fn point3_floor_int() {
    let p = Point3::new(1, 2, 3);

    let floor = p.floor();

    assert_eq!(1, floor.x);
    assert_eq!(2, floor.y);
    assert_eq!(3, floor.z);
}

#[test]
fn point3_ceil() {
    let p = Point3::new(Real(1.5), Real(2.7), Real(3.9));

    let ceil = p.ceil();

    assert_eq!(Real(2.0), ceil.x);
    assert_eq!(Real(3.0), ceil.y);
    assert_eq!(Real(4.0), ceil.z);
}

#[test]
fn point3_ceil_int() {
    let p = Point3::new(1, 2, 3);

    let ceil = p.ceil();

    assert_eq!(1, ceil.x);
    assert_eq!(2, ceil.y);
    assert_eq!(3, ceil.z);
}

#[test]
fn point3_abs() {
    let p = Point3::new(Real(-1.0), Real(2.0), Real(-3.0));

    let abs = p.abs();

    assert_eq!(Real(1.0), abs.x);
    assert_eq!(Real(2.0), abs.y);
    assert_eq!(Real(3.0), abs.z);
}

#[test]
fn point3_permute() {
    let p = Point3::new(Real(1.0), Real(2.0), Real(3.0));

    let permuted = p.permute(2, 0, 1);

    assert_eq!(Real(3.0), permuted.x);
    assert_eq!(Real(1.0), permuted.y);
    assert_eq!(Real(2.0), permuted.z);
}

#[test]
fn point3_from_vector3() {
    let v3 = Vector3{x: Real(1.0), y: Real(2.0), z: Real(3.0)};
    let p3 = Point3::from(v3);

    assert_eq!(Real(1.0), p3.x);
    assert_eq!(Real(2.0), p3.y);
    assert_eq!(Real(3.0), p3.z);
}

#[test]
fn point3_index() {
    let p = Point3::new(Real(1.0), Real(2.0), Real(3.0));

    assert_eq!(Real(1.0), p[0]);
    assert_eq!(Real(2.0), p[1]);
    assert_eq!(Real(3.0), p[2]);
}

#[test]
fn point3_index_mut() {
    let mut p = Point3::new(Real(1.0), Real(2.0), Real(3.0));
    *p.index_mut(0) = Real(5.0);

    assert_eq!(Real(5.0), p[0]);
    assert_eq!(Real(2.0), p[1]);
    assert_eq!(Real(3.0), p[2]);
}

#[test]
fn point3_add() {
    let p1 = Point3::new(Real(1.0), Real(2.0), Real(3.0));
    let p2 = Point3::new(Real(1.0), Real(2.0), Real(3.0));

    let result = p1 + p2;

    assert_eq!(Real(2.0), result.x);
    assert_eq!(Real(4.0), result.y);
    assert_eq!(Real(6.0), result.z);
}

#[test]
fn point3_add_vector() {
    let p = Point3::new(Real(1.0), Real(2.0), Real(3.0));
    let v = Vector3::new(Real(1.0), Real(2.0), Real(3.0));

    let result = p + v;

    assert_eq!(Real(2.0), result.x);
    assert_eq!(Real(4.0), result.y);
    assert_eq!(Real(6.0), result.z);
}

#[test]
fn point3_add_assign() {
    let mut p = Point3::new(Real(1.0), Real(2.0), Real(3.0));
    p.add_assign(Vector3::new(Real(1.0), Real(2.0), Real(3.0)));

    assert_eq!(Real(2.0), p.x);
    assert_eq!(Real(4.0), p.y);
    assert_eq!(Real(6.0), p.z);
}

#[test]
fn point3_sub() {
    let p1 = Point3::new(Real(1.0), Real(2.0), Real(3.0));
    let p2 = Point3::new(Real(1.0), Real(2.0), Real(3.0));

    let result = p1 - p2;

    assert_eq!(Real(0.0), result.x);
    assert_eq!(Real(0.0), result.y);
    assert_eq!(Real(0.0), result.z);
}

#[test]
fn point3_sub_vector() {
    let p = Point3::new(Real(1.0), Real(2.0), Real(3.0));
    let v = Vector3::new(Real(1.0), Real(2.0), Real(3.0));

    let result = p - v;

    assert_eq!(Real(0.0), result.x);
    assert_eq!(Real(0.0), result.y);
    assert_eq!(Real(0.0), result.z);
}

#[test]
fn point3_sub_assign() {
    let mut p = Point3::new(Real(1.0), Real(2.0), Real(3.0));
    p.sub_assign(Vector3::new(Real(1.0), Real(2.0), Real(3.0)));

    assert_eq!(Real(0.0), p.x);
    assert_eq!(Real(0.0), p.y);
    assert_eq!(Real(0.0), p.z);
}

#[test]
fn point3_mul() {
    let p1 = Point3::new(Real(1.0), Real(2.0), Real(3.0));
    let p2 = p1 * Real(2.0);

    assert_eq!(Real(2.0), p2.x);
    assert_eq!(Real(4.0), p2.y);
    assert_eq!(Real(6.0), p2.z);
}

#[test]
fn point3_mul_assign() {
    let mut p = Point3::new(Real(1.0), Real(2.0), Real(3.0));
    p.mul_assign(Real(2.0));

    assert_eq!(Real(2.0), p.x);
    assert_eq!(Real(4.0), p.y);
    assert_eq!(Real(6.0), p.z);
}
