use luminary::normal3::Normal3;
use luminary::value::Value;
use luminary::vector3::Vector3;

/// A double-precision scalar for the geometric types.
#[derive(Clone, Copy, Debug, PartialEq, PartialOrd)]
struct Real(f64);

fn through_double(x: f64) -> f64 {
    let d: f64 = num::ToPrimitive::to_f64(&x).unwrap();
    num::FromPrimitive::from_f64(d).unwrap()
}

impl Value for Real {
    fn same(self, rhs: Self) -> bool {
        self.0 == rhs.0
    }

    fn less(self, rhs: Self) -> bool {
        self.0 < rhs.0
    }

    fn at_most(self, rhs: Self) -> bool {
        self.0 <= rhs.0
    }

    fn can_add(self, _rhs: Self) -> bool {
        true
    }

    fn plus(self, rhs: Self) -> Self {
        Real(self.0 + rhs.0)
    }

    fn can_sub(self, _rhs: Self) -> bool {
        true
    }

    fn minus(self, rhs: Self) -> Self {
        Real(self.0 - rhs.0)
    }

    fn can_mul(self, _rhs: Self) -> bool {
        true
    }

    fn times(self, rhs: Self) -> Self {
        Real(self.0 * rhs.0)
    }

    fn can_div(self, _rhs: Self) -> bool {
        true
    }

    fn over(self, rhs: Self) -> Self {
        Real(self.0 / rhs.0)
    }

    fn can_neg(self) -> bool {
        true
    }

    fn negated(self) -> Self {
        Real(-self.0)
    }

    fn can_abs(self) -> bool {
        true
    }

    fn magnitude(self) -> Self {
        Real(num::abs(self.0))
    }

    fn can_sqrt(self) -> bool {
        true
    }

    fn root(self) -> Self {
        Real(through_double(self.0.sqrt()))
    }

    fn can_floor(self) -> bool {
        true
    }

    fn floored(self) -> Self {
        Real(through_double(self.0.floor()))
    }

    fn can_ceil(self) -> bool {
        true
    }

    fn ceiled(self) -> Self {
        Real(through_double(self.0.ceil()))
    }

    fn nil() -> Self {
        Real(num::zero())
    }

    fn unit() -> Self {
        Real(num::one())
    }

    fn lowest() -> Self {
        Real(num::Bounded::min_value())
    }

    fn highest() -> Self {
        Real(num::Bounded::max_value())
    }

    fn zero() -> Self {
        Self::nil()
    }

    fn one() -> Self {
        Self::unit()
    }

    fn min_value() -> Self {
        Self::lowest()
    }

    fn max_value() -> Self {
        Self::highest()
    }

    fn equals(self, rhs: Self) -> bool {
        self.same(rhs)
    }

    fn lt(self, rhs: Self) -> bool {
        self.less(rhs)
    }

    fn gt(self, rhs: Self) -> bool {
        rhs.less(self)
    }

    fn le(self, rhs: Self) -> bool {
        self.at_most(rhs)
    }

    fn ge(self, rhs: Self) -> bool {
        rhs.at_most(self)
    }

    fn add(self, rhs: Self) -> Self {
        self.plus(rhs)
    }

    fn sub(self, rhs: Self) -> Self {
        self.minus(rhs)
    }

    fn mul(self, rhs: Self) -> Self {
        self.times(rhs)
    }

    fn div(self, rhs: Self) -> Self {
        self.over(rhs)
    }

    fn neg(self) -> Self {
        self.negated()
    }

    fn abs(self) -> Self {
        self.magnitude()
    }

    fn sqrt(self) -> Self {
        self.root()
    }

    fn floor(self) -> Self {
        self.floored()
    }

    fn ceil(self) -> Self {
        self.ceiled()
    }
}

#[test]
fn normal3_new() {
    let n = Normal3::new(Real(1.0), Real(2.0), Real(3.0));

    assert_eq!(Real(1.0), n.x);
    assert_eq!(Real(2.0), n.y);
    assert_eq!(Real(3.0), n.z);
}

#[test]
fn normal3_new_zero() {
    let n: Normal3<Real> = Normal3::zero();

    assert_eq!(Real(0.0), n.x);
    assert_eq!(Real(0.0), n.y);
    assert_eq!(Real(0.0), n.z);
}

#[test]
fn normal3_new_zero_int() {
    let n: Normal3<i32> = Normal3::zero();

    assert_eq!(0, n.x);
    assert_eq!(0, n.y);
    assert_eq!(0, n.z);
}

#[test]
fn normal3_abs() {
    let n1 = Normal3::new(Real(-1.0), Real(-2.0), Real(-3.0));
    let n2 = n1.abs();

    assert_eq!(Real(1.0), n2.x);
    assert_eq!(Real(2.0), n2.y);
    assert_eq!(Real(3.0), n2.z);
}

#[test]
fn normal3_dot() {
    let n1 = Normal3::new(Real(1.0), Real(2.0), Real(3.0));
    let n2 = Normal3::new(Real(1.0), Real(2.0), Real(3.0));

    let dot = n1.dot(n2);

    assert_eq!(Real(14.0), dot);
}

#[test]
fn normal3_abs_dot() {
    let n1 = Normal3::new(Real(1.0), Real(2.0), Real(3.0));
    let n2 = Normal3::new(Real(-1.0), Real(-2.0), Real(-3.0));

    let abs_dot = n1.abs_dot(n2);

    assert_eq!(Real(14.0), abs_dot);
}

#[test]
fn normal3_length_squared() {
    let n = Normal3::new(Real(1.0), Real(2.0), Real(3.0));

    let length_squared = n.length_squared();

    assert_eq!(Real(14.0), length_squared);
}

#[test]
fn normal3_length() {
    let n = Normal3::new(Real(1.0), Real(2.0), Real(3.0));

    let length = n.length();

    assert_eq!(Real(3.7416573867739413), length);
}

#[test]
fn normal3_normalize() {
    let n = Normal3::new(Real(3.0), Real(1.0), Real(2.0));

    let normalized = n.normalize();

    assert_eq!(Real(0.8017837257372732), normalized.x);
    assert_eq!(Real(0.2672612419124244), normalized.y);
    assert_eq!(Real(0.5345224838248488), normalized.z);
}

#[test]
fn normal3_min_component() {
    let n = Normal3::new(Real(1.0), Real(2.0), Real(3.0));

    let min_component = n.min_component();

    assert_eq!(Real(1.0), min_component);
}

#[test]
fn normal3_max_component() {
    let n = Normal3::new(Real(1.0), Real(2.0), Real(3.0));

    let max_component = n.max_component();

    assert_eq!(Real(3.0), max_component);
}

#[test]
fn normal3_max_dimension() {
    let n = Normal3::new(Real(1.0), Real(2.0), Real(3.0));

    let max_dimension = n.max_dimension();

    assert_eq!(2, max_dimension);
}

#[test]
fn normal3_min() {
    let n1 = Normal3::new(Real(1.0), Real(2.0), Real(3.0));
    let n2 = Normal3::new(Real(3.0), Real(2.0), Real(1.0));

    let min = n1.min(n2);

    assert_eq!(Real(1.0), min.x);
    assert_eq!(Real(2.0), min.y);
    assert_eq!(Real(1.0), min.z);
}

#[test]
fn normal3_max() {
    let n1 = Normal3::new(Real(1.0), Real(2.0), Real(3.0));
    let n2 = Normal3::new(Real(3.0), Real(2.0), Real(1.0));

    let min = n1.max(n2);

    assert_eq!(Real(3.0), min.x);
    assert_eq!(Real(2.0), min.y);
    assert_eq!(Real(3.0), min.z);
}

#[test]
fn normal3_permute() {
    let n = Normal3::new(Real(1.0), Real(2.0), Real(3.0));

    let permuted = n.permute(2, 0, 1);

    assert_eq!(Real(3.0), permuted.x);
    assert_eq!(Real(1.0), permuted.y);
    assert_eq!(Real(2.0), permuted.z);
}

#[test]
fn normal3_from_vector3() {
    let v3 = Vector3 {
        x: Real(1.0),
        y: Real(2.0),
        z: Real(3.0),
    };
    let n3 = Normal3::from(v3);

    assert_eq!(Real(1.0), n3.x);
    assert_eq!(Real(2.0), n3.y);
    assert_eq!(Real(3.0), n3.z);
}

#[test]
fn normal3_index() {
    let n = Normal3::new(Real(1.0), Real(2.0), Real(3.0));

    assert_eq!(Real(1.0), n[0]);
    assert_eq!(Real(2.0), n[1]);
    assert_eq!(Real(3.0), n[2]);
}

#[test]
fn normal3_index_mut() {
    let mut n = Normal3::new(Real(1.0), Real(2.0), Real(3.0));
    *n.index_mut(0) = Real(5.0);

    assert_eq!(Real(5.0), n[0]);
    assert_eq!(Real(2.0), n[1]);
    assert_eq!(Real(3.0), n[2]);
}

#[test]
fn normal3_add() {
    let n1 = Normal3::new(Real(1.0), Real(2.0), Real(3.0));
    let n2 = Normal3::new(Real(1.0), Real(2.0), Real(3.0));

    let n3 = n1 + n2;

    assert_eq!(Real(2.0), n3.x);
    assert_eq!(Real(4.0), n3.y);
    assert_eq!(Real(6.0), n3.z);
}

#[test]
fn normal3_add_assign() {
    let mut n1 = Normal3::new(Real(1.0), Real(2.0), Real(3.0));
    n1.add_assign(Normal3::new(Real(1.0), Real(2.0), Real(3.0)));

    assert_eq!(Real(2.0), n1.x);
    assert_eq!(Real(4.0), n1.y);
    assert_eq!(Real(6.0), n1.z);
}

#[test]
fn normal3_sub() {
    let n1 = Normal3::new(Real(1.0), Real(2.0), Real(3.0));
    let n2 = Normal3::new(Real(1.0), Real(2.0), Real(3.0));

    let n3 = n1 - n2;

    assert_eq!(Real(0.0), n3.x);
    assert_eq!(Real(0.0), n3.y);
    assert_eq!(Real(0.0), n3.z);
}

#[test]
fn normal3_sub_assign() {
    let mut n1 = Normal3::new(Real(1.0), Real(2.0), Real(3.0));
    n1.sub_assign(Normal3::new(Real(1.0), Real(2.0), Real(3.0)));

    assert_eq!(Real(0.0), n1.x);
    assert_eq!(Real(0.0), n1.y);
    assert_eq!(Real(0.0), n1.z);
}

#[test]
fn normal3_mul() {
    let n1 = Normal3::new(Real(1.0), Real(2.0), Real(3.0));
    let n2 = n1 * Real(2.0);

    assert_eq!(Real(2.0), n2.x);
    assert_eq!(Real(4.0), n2.y);
    assert_eq!(Real(6.0), n2.z);
}

#[test]
fn normal3_mul_assign() {
    let mut n = Normal3::new(Real(1.0), Real(2.0), Real(3.0));
    n.mul_assign(Real(2.0));

    assert_eq!(Real(2.0), n.x);
    assert_eq!(Real(4.0), n.y);
    assert_eq!(Real(6.0), n.z);
}

#[test]
fn normal3_div() {
    let n1 = Normal3::new(Real(2.0), Real(4.0), Real(6.0));
    let n2 = n1 / Real(2.0);

    assert_eq!(Real(1.0), n2.x);
    assert_eq!(Real(2.0), n2.y);
    assert_eq!(Real(3.0), n2.z);
}

#[test]
fn normal3_div_assign() {
    let mut n1 = Normal3::new(Real(2.0), Real(4.0), Real(6.0));
    n1.div_assign(Real(2.0));

    assert_eq!(Real(1.0), n1.x);
    assert_eq!(Real(2.0), n1.y);
    assert_eq!(Real(3.0), n1.z);
}

#[test]
fn normal3_neg() {
    let n1 = -Normal3::new(Real(2.0), Real(4.0), Real(6.0));

    assert_eq!(Real(-2.0), n1.x);
    assert_eq!(Real(-4.0), n1.y);
    assert_eq!(Real(-6.0), n1.z);
}
