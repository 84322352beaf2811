use luminary::value::Value;
use luminary::vector2::Vector2;

/// A double-precision scalar for the geometric types.
#[derive(Clone, Copy, Debug, PartialEq, PartialOrd)]
struct Real(f64);

fn through_double(x: f64) -> f64 {
    let d: f64 = num::ToPrimitive::to_f64(&x).unwrap();
    num::FromPrimitive::from_f64(d).unwrap()
}

impl Value for Real {
    fn same(self, rhs: Self) -> bool {
        self.0 == rhs.0
    }

    fn less(self, rhs: Self) -> bool {
        self.0 < rhs.0
    }

    fn at_most(self, rhs: Self) -> bool {
        self.0 <= rhs.0
    }

    fn can_add(self, _rhs: Self) -> bool {
        true
    }

    fn plus(self, rhs: Self) -> Self {
        Real(self.0 + rhs.0)
    }

    fn can_sub(self, _rhs: Self) -> bool {
        true
    }

    fn minus(self, rhs: Self) -> Self {
        Real(self.0 - rhs.0)
    }

    fn can_mul(self, _rhs: Self) -> bool {
        true
    }

    fn times(self, rhs: Self) -> Self {
        Real(self.0 * rhs.0)
    }

    fn can_div(self, _rhs: Self) -> bool {
        true
    }

    fn over(self, rhs: Self) -> Self {
        Real(self.0 / rhs.0)
    }

    fn can_neg(self) -> bool {
        true
    }

    fn negated(self) -> Self {
        Real(-self.0)
    }

    fn can_abs(self) -> bool {
        true
    }

    fn magnitude(self) -> Self {
        Real(num::abs(self.0))
    }

    fn can_sqrt(self) -> bool {
        true
    }

    fn root(self) -> Self {
        Real(through_double(self.0.sqrt()))
    }

    fn can_floor(self) -> bool {
        true
    }

    fn floored(self) -> Self {
        Real(through_double(self.0.floor()))
    }

    fn can_ceil(self) -> bool {
        true
    }

    fn ceiled(self) -> Self {
        Real(through_double(self.0.ceil()))
    }

    fn nil() -> Self {
        Real(num::zero())
    }

    fn unit() -> Self {
        Real(num::one())
    }

    fn lowest() -> Self {
        Real(num::Bounded::min_value())
    }

    fn highest() -> Self {
        Real(num::Bounded::max_value())
    }

    fn zero() -> Self {
        Self::nil()
    }

    fn one() -> Self {
        Self::unit()
    }

    fn min_value() -> Self {
        Self::lowest()
    }

    fn max_value() -> Self {
        Self::highest()
    }

    fn equals(self, rhs: Self) -> bool {
        self.same(rhs)
    }

    fn lt(self, rhs: Self) -> bool {
        self.less(rhs)
    }

    fn gt(self, rhs: Self) -> bool {
        rhs.less(self)
    }

    fn le(self, rhs: Self) -> bool {
        self.at_most(rhs)
    }

    fn ge(self, rhs: Self) -> bool {
        rhs.at_most(self)
    }

    fn add(self, rhs: Self) -> Self {
        self.plus(rhs)
    }

    fn sub(self, rhs: Self) -> Self {
        self.minus(rhs)
    }

    fn mul(self, rhs: Self) -> Self {
        self.times(rhs)
    }

    fn div(self, rhs: Self) -> Self {
        self.over(rhs)
    }

    fn neg(self) -> Self {
        self.negated()
    }

    fn abs(self) -> Self {
        self.magnitude()
    }

    fn sqrt(self) -> Self {
        self.root()
    }

    fn floor(self) -> Self {
        self.floored()
    }

    fn ceil(self) -> Self {
        self.ceiled()
    }
}

#[test]
fn vector2_new() {
    let v = Vector2::new(Real(1.0), Real(2.0));

    assert_eq!(Real(1.0), v.x);
    assert_eq!(Real(2.0), v.y);
}

#[test]
fn vector2_new_int() {
    let v = Vector2::new(1, 2);

    assert_eq!(1, v.x);
    assert_eq!(2, v.y);
}

#[test]
fn has_nans_false() {
    let v = Vector2::new(Real(1.0), Real(2.0));

    assert_eq!(false, v.has_nans())
}

#[test]
fn vector2_abs() {
    let v1 = Vector2::new(Real(-1.0), Real(-2.0));
    let v2 = v1.abs();

    assert_eq!(Real(1.0), v2.x);
    assert_eq!(Real(2.0), v2.y);
}

#[test]
fn vector2_dot() {
    let v1 = Vector2::new(Real(1.0), Real(2.0));
    let v2 = Vector2::new(Real(1.0), Real(2.0));

    let dot = v1.dot(v2);

    assert_eq!(Real(5.0), dot);
}

#[test]
fn vector2_abs_dot() {
    let v1 = Vector2::new(Real(1.0), Real(2.0));
    let v2 = Vector2::new(Real(-1.0), Real(-2.0));

    let abs_dot = v1.abs_dot(v2);

    assert_eq!(Real(5.0), abs_dot);
}

#[test]
fn vector2_length_squared() {
    let v = Vector2::new(Real(1.0), Real(2.0));

    let length_squared = v.length_squared();

    assert_eq!(Real(5.0), length_squared);
}

#[test]
fn vector2_length() {
    let v = Vector2::new(Real(1.0), Real(2.0));

    let length = v.length();

    assert_eq!(Real(2.23606797749979), length);
}

#[test]
fn vector2_normalize() {
    let v = Vector2::new(Real(3.0), Real(1.0));

    let normalized = v.normalize();

    assert_eq!(Real(0.9486832980505138), normalized.x);
    assert_eq!(Real(0.31622776601683794), normalized.y);
}

#[test]
fn vector2_min_component() {
    let v = Vector2::new(Real(1.0), Real(2.0));

    let min_component = v.min_component();

    assert_eq!(Real(1.0), min_component);
}

#[test]
fn vector2_max_component() {
    let v = Vector2::new(Real(1.0), Real(2.0));

    let max_component = v.max_component();

    assert_eq!(Real(2.0), max_component);
}

#[test]
fn vector2_max_dimension() {
    let v = Vector2::new(Real(1.0), Real(2.0));

    let max_dimension = v.max_dimension();

    assert_eq!(1, max_dimension);
}

#[test]
fn vector2_min() {
    let v1 = Vector2::new(Real(1.0), Real(2.0));
    let v2 = Vector2::new(Real(3.0), Real(2.0));

    let min = v1.min(v2);

    assert_eq!(Real(1.0), min.x);
    assert_eq!(Real(2.0), min.y);
}

#[test]
fn vector2_max() {
    let v1 = Vector2::new(Real(1.0), Real(2.0));
    let v2 = Vector2::new(Real(3.0), Real(2.0));

    let min = v1.max(v2);

    assert_eq!(Real(3.0), min.x);
    assert_eq!(Real(2.0), min.y);
}

#[test]
fn vector2_permute() {
    let v = Vector2::new(Real(1.0), Real(2.0));

    let permuted = v.permute(1, 0);

    assert_eq!(Real(2.0), permuted.x);
    assert_eq!(Real(1.0), permuted.y);
}

#[test]
fn vector2_index() {
    let v = Vector2::new(Real(1.0), Real(2.0));

    assert_eq!(Real(1.0), v[0]);
    assert_eq!(Real(2.0), v[1]);
}

#[test]
fn vector2_index_mut() {
    let mut v = Vector2::new(Real(1.0), Real(2.0));
    *v.index_mut(0) = Real(5.0);

    assert_eq!(Real(5.0), v[0]);
    assert_eq!(Real(2.0), v[1]);
}

#[test]
fn plus() {
    let v1 = Vector2::new(Real(1.0), Real(2.0));
    let v2 = Vector2::new(Real(1.0), Real(2.0));

    let v3 = v1 + v2;

    assert_eq!(Real(2.0), v3.x);
    assert_eq!(Real(4.0), v3.y);
}

#[test]
fn plus_assign() {
    let mut v1 = Vector2::new(Real(1.0), Real(2.0));
    v1.add_assign(Vector2::new(Real(1.0), Real(2.0)));

    assert_eq!(Real(2.0), v1.x);
    assert_eq!(Real(4.0), v1.y);
}

#[test]
fn vector2_sub() {
    let v1 = Vector2::new(Real(1.0), Real(2.0));
    let v2 = Vector2::new(Real(1.0), Real(2.0));

    let v3 = v1 - v2;

    assert_eq!(Real(0.0), v3.x);
    assert_eq!(Real(0.0), v3.y);
}

#[test]
fn vector2_sub_assign() {
    let mut v1 = Vector2::new(Real(1.0), Real(2.0));
    v1.sub_assign(Vector2::new(Real(1.0), Real(2.0)));

    assert_eq!(Real(0.0), v1.x);
    assert_eq!(Real(0.0), v1.y);
}

#[test]
fn vector2_mul() {
    let v1 = Vector2::new(Real(1.0), Real(2.0));
    let v2 = v1 * Real(2.0);

    assert_eq!(Real(2.0), v2.x);
    assert_eq!(Real(4.0), v2.y);
}

#[test]
fn vector2_mul_assign() {
    let mut v1 = Vector2::new(Real(1.0), Real(2.0));
    v1.mul_assign(Real(2.0));

    assert_eq!(Real(2.0), v1.x);
    assert_eq!(Real(4.0), v1.y);
}

#[test]
fn vector2_div() {
    let v1 = Vector2::new(Real(2.0), Real(4.0));
    let v2 = v1 / Real(2.0);

    assert_eq!(Real(1.0), v2.x);
    assert_eq!(Real(2.0), v2.y);
}

#[test]
fn vector2_div_assign() {
    let mut v1 = Vector2::new(Real(2.0), Real(4.0));
    v1.div_assign(Real(2.0));

    assert_eq!(Real(1.0), v1.x);
    assert_eq!(Real(2.0), v1.y);
}

#[test]
fn vector2_neg() {
    let v1 = -Vector2::new(Real(2.0), Real(4.0));

    assert_eq!(Real(-2.0), v1.x);
    assert_eq!(Real(-4.0), v1.y);
}
