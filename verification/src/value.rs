//! The scalar capability: what a numeric type provides so that the geometric
//! types can be built over it.
//!
//! Every operation comes as a pair: a specification function that names the
//! result, and an executable method that returns exactly that result. Where an
//! operation is not defined for every operand (an integer sum that leaves the
//! range, a division by zero), a `can_*` predicate says when it is.
use vstd::prelude::*;

verus! {

pub trait Value: Copy {
    /// What `equals` decides. A value that is not `same` as itself is not a number.
    spec fn same(self, rhs: Self) -> bool;

    /// Strict order: what `lt` decides, and `gt` with the operands exchanged.
    spec fn less(self, rhs: Self) -> bool;

    /// Weak order: what `le` decides, and `ge` with the operands exchanged.
    spec fn at_most(self, rhs: Self) -> bool;

    spec fn can_add(self, rhs: Self) -> bool;

    spec fn plus(self, rhs: Self) -> Self;

    spec fn can_sub(self, rhs: Self) -> bool;

    spec fn minus(self, rhs: Self) -> Self;

    spec fn can_mul(self, rhs: Self) -> bool;

    spec fn times(self, rhs: Self) -> Self;

    spec fn can_div(self, rhs: Self) -> bool;

    spec fn over(self, rhs: Self) -> Self;

    spec fn can_neg(self) -> bool;

    spec fn negated(self) -> Self;

    spec fn can_abs(self) -> bool;

    spec fn magnitude(self) -> Self;

    spec fn can_sqrt(self) -> bool;

    spec fn root(self) -> Self;

    spec fn can_floor(self) -> bool;

    spec fn floored(self) -> Self;

    spec fn can_ceil(self) -> bool;

    spec fn ceiled(self) -> Self;

    /// The additive identity.
    spec fn nil() -> Self;

    /// The multiplicative identity.
    spec fn unit() -> Self;

    /// The most negative value of the type.
    spec fn lowest() -> Self;

    /// The most positive value of the type.
    spec fn highest() -> Self;

    fn zero() -> (r: Self)
        ensures
            r == Self::nil(),
    ;

    fn one() -> (r: Self)
        ensures
            r == Self::unit(),
    ;

    fn min_value() -> (r: Self)
        ensures
            r == Self::lowest(),
    ;

    fn max_value() -> (r: Self)
        ensures
            r == Self::highest(),
    ;

    fn equals(self, rhs: Self) -> (r: bool)
        ensures
            r == self.same(rhs),
    ;

    fn lt(self, rhs: Self) -> (r: bool)
        ensures
            r == self.less(rhs),
    ;

    fn gt(self, rhs: Self) -> (r: bool)
        ensures
            r == rhs.less(self),
    ;

    fn le(self, rhs: Self) -> (r: bool)
        ensures
            r == self.at_most(rhs),
    ;

    fn ge(self, rhs: Self) -> (r: bool)
        ensures
            r == rhs.at_most(self),
    ;

    fn add(self, rhs: Self) -> (r: Self)
        requires
            self.can_add(rhs),
        ensures
            r == self.plus(rhs),
    ;

    fn sub(self, rhs: Self) -> (r: Self)
        requires
            self.can_sub(rhs),
        ensures
            r == self.minus(rhs),
    ;

    fn mul(self, rhs: Self) -> (r: Self)
        requires
            self.can_mul(rhs),
        ensures
            r == self.times(rhs),
    ;

    fn div(self, rhs: Self) -> (r: Self)
        requires
            self.can_div(rhs),
        ensures
            r == self.over(rhs),
    ;

    fn neg(self) -> (r: Self)
        requires
            self.can_neg(),
        ensures
            r == self.negated(),
    ;

    fn abs(self) -> (r: Self)
        requires
            self.can_abs(),
        ensures
            r == self.magnitude(),
    ;

    fn sqrt(self) -> (r: Self)
        requires
            self.can_sqrt(),
        ensures
            r == self.root(),
    ;

    fn floor(self) -> (r: Self)
        requires
            self.can_floor(),
        ensures
            r == self.floored(),
    ;

    fn ceil(self) -> (r: Self)
        requires
            self.can_ceil(),
        ensures
            r == self.ceiled(),
    ;

    /// The smaller of two values by strict `<`; a tie yields the second.
    fn min(self, other: Self) -> (r: Self)
        ensures
            r == (if self.less(other) { self } else { other }),
    {
        if self.lt(other) {
            self
        } else {
            other
        }
    }

    /// The larger of two values by strict `>`; a tie yields the second.
    fn max(self, other: Self) -> (r: Self)
        ensures
            r == (if other.less(self) { self } else { other }),
    {
        if self.gt(other) {
            self
        } else {
            other
        }
    }
}

/// `a` if it is strictly less than `b`, else `b`.
pub open spec fn smaller<T: Value>(a: T, b: T) -> T {
    if a.less(b) {
        a
    } else {
        b
    }
}

/// `a` if it is strictly greater than `b`, else `b`.
pub open spec fn larger<T: Value>(a: T, b: T) -> T {
    if b.less(a) {
        a
    } else {
        b
    }
}

/// Whether a value is a number: it compares equal to itself.
pub open spec fn is_number<T: Value>(x: T) -> bool {
    x.same(x)
}

/// The quotient of two integers rounded toward zero, as machine division gives
/// it, written with the division of specifications, which rounds so that the
/// remainder is not negative.
pub open spec fn truncated_quotient(a: int, b: int) -> int
    recommends
        b != 0,
{
    if a >= 0 {
        a / b
    } else {
        -((-a) / b)
    }
}

/// The integer square root: the one `r >= 0` with `r * r <= x < (r + 1) * (r + 1)`.
/// Meaningful for `x >= 0`.
pub open spec fn integer_root(x: int) -> int {
    choose|r: int| is_integer_root(x, r)
}

pub open spec fn is_integer_root(x: int, r: int) -> bool {
    0 <= r && r * r <= x < (r + 1) * (r + 1)
}

/// At most one number is the integer square root of `x`.
pub proof fn lemma_integer_root_unique(x: int, a: int, b: int)
    requires
        is_integer_root(x, a),
        is_integer_root(x, b),
    ensures
        a == b,
{
    if a < b {
        assert((a + 1) * (a + 1) <= b * b) by (nonlinear_arith)
            requires
                0 <= a,
                a + 1 <= b,
        ;
    } else if b < a {
        assert((b + 1) * (b + 1) <= a * a) by (nonlinear_arith)
            requires
                0 <= b,
                b + 1 <= a,
        ;
    }
}

/// A number that is an integer square root of `x` is the integer square root of `x`.
pub proof fn lemma_integer_root(x: int, r: int)
    requires
        is_integer_root(x, r),
    ensures
        integer_root(x) == r,
{
    lemma_integer_root_unique(x, r, integer_root(x));
}

/// `num::zero` at `i32`: the additive identity, which is 0.
#[verifier::external_body]
fn int_zero() -> (r: i32)
    ensures
        r == 0,
{
    num::zero()
}

/// `num::one` at `i32`: the multiplicative identity, which is 1.
#[verifier::external_body]
fn int_one() -> (r: i32)
    ensures
        r == 1,
{
    num::one()
}

/// `num::Bounded::min_value` at `i32`: the least value of the type.
#[verifier::external_body]
fn int_min_value() -> (r: i32)
    ensures
        r == i32::MIN,
{
    num::Bounded::min_value()
}

/// `num::Bounded::max_value` at `i32`: the greatest value of the type.
#[verifier::external_body]
fn int_max_value() -> (r: i32)
    ensures
        r == i32::MAX,
{
    num::Bounded::max_value()
}

/// `num::abs` at `i32`: the negation of a negative number, the number itself
/// otherwise. The least value has no negation in the type and is left out.
#[verifier::external_body]
fn int_abs(x: i32) -> (r: i32)
    requires
        x != i32::MIN,
    ensures
        r == (if x < 0 { -x } else { x as int }),
{
    num::abs(x)
}

/// The square root taken in double precision: `num::ToPrimitive::to_f64`, then
/// `num::Float::sqrt`, then `num::FromPrimitive::from_f64` back to `i32`.
/// Every `i32` is a double, the root of a double is correctly rounded, and the
/// way back drops the fraction, so a number that is not negative yields its
/// integer square root. The root of a negative number is not a number, and
/// the way back then yields nothing.
#[verifier::external_body]
fn int_sqrt(x: i32) -> (r: Option<i32>)
    ensures
        match r {
            Some(v) => x >= 0 && is_integer_root(x as int, v as int),
            None => x < 0,
        },
{
    match num::ToPrimitive::to_f64(&x) {
        Some(d) => num::FromPrimitive::from_f64(num::Float::sqrt(d)),
        None => None,
    }
}

/// Rounding down in double precision: `num::ToPrimitive::to_f64`, then
/// `num::Float::floor`, then `num::FromPrimitive::from_f64` back to `i32`.
/// Every `i32` is a double without a fraction, so it comes back unchanged.
#[verifier::external_body]
fn int_floor(x: i32) -> (r: Option<i32>)
    ensures
        r == Some(x),
{
    match num::ToPrimitive::to_f64(&x) {
        Some(d) => num::FromPrimitive::from_f64(num::Float::floor(d)),
        None => None,
    }
}

/// Rounding up in double precision: `num::ToPrimitive::to_f64`, then
/// `num::Float::ceil`, then `num::FromPrimitive::from_f64` back to `i32`.
/// Every `i32` is a double without a fraction, so it comes back unchanged.
#[verifier::external_body]
fn int_ceil(x: i32) -> (r: Option<i32>)
    ensures
        r == Some(x),
{
    match num::ToPrimitive::to_f64(&x) {
        Some(d) => num::FromPrimitive::from_f64(num::Float::ceil(d)),
        None => None,
    }
}

impl Value for i32 {
    open spec fn same(self, rhs: Self) -> bool {
        self == rhs
    }

    open spec fn less(self, rhs: Self) -> bool {
        self < rhs
    }

    open spec fn at_most(self, rhs: Self) -> bool {
        self <= rhs
    }

    open spec fn can_add(self, rhs: Self) -> bool {
        i32::MIN <= self + rhs <= i32::MAX
    }

    open spec fn plus(self, rhs: Self) -> Self {
        (self + rhs) as i32
    }

    open spec fn can_sub(self, rhs: Self) -> bool {
        i32::MIN <= self - rhs <= i32::MAX
    }

    open spec fn minus(self, rhs: Self) -> Self {
        (self - rhs) as i32
    }

    open spec fn can_mul(self, rhs: Self) -> bool {
        i32::MIN <= self * rhs <= i32::MAX
    }

    open spec fn times(self, rhs: Self) -> Self {
        (self * rhs) as i32
    }

    open spec fn can_div(self, rhs: Self) -> bool {
        rhs != 0 && !(self == i32::MIN && rhs == -1)
    }

    open spec fn over(self, rhs: Self) -> Self {
        truncated_quotient(self as int, rhs as int) as i32
    }

    open spec fn can_neg(self) -> bool {
        self != i32::MIN
    }

    open spec fn negated(self) -> Self {
        (-self) as i32
    }

    open spec fn can_abs(self) -> bool {
        self != i32::MIN
    }

    open spec fn magnitude(self) -> Self {
        if self < 0 {
            (-self) as i32
        } else {
            self
        }
    }

    open spec fn can_sqrt(self) -> bool {
        self >= 0
    }

    open spec fn root(self) -> Self {
        integer_root(self as int) as i32
    }

    open spec fn can_floor(self) -> bool {
        true
    }

    open spec fn floored(self) -> Self {
        self
    }

    open spec fn can_ceil(self) -> bool {
        true
    }

    open spec fn ceiled(self) -> Self {
        self
    }

    open spec fn nil() -> Self {
        0
    }

    open spec fn unit() -> Self {
        1
    }

    open spec fn lowest() -> Self {
        i32::MIN
    }

    open spec fn highest() -> Self {
        i32::MAX
    }

    fn zero() -> (r: Self) {
        int_zero()
    }

    fn one() -> (r: Self) {
        int_one()
    }

    fn min_value() -> (r: Self) {
        int_min_value()
    }

    fn max_value() -> (r: Self) {
        int_max_value()
    }

    fn equals(self, rhs: Self) -> (r: bool) {
        self == rhs
    }

    fn lt(self, rhs: Self) -> (r: bool) {
        self < rhs
    }

    fn gt(self, rhs: Self) -> (r: bool) {
        self > rhs
    }

    fn le(self, rhs: Self) -> (r: bool) {
        self <= rhs
    }

    fn ge(self, rhs: Self) -> (r: bool) {
        self >= rhs
    }

    fn add(self, rhs: Self) -> (r: Self) {
        self + rhs
    }

    fn sub(self, rhs: Self) -> (r: Self) {
        self - rhs
    }

    fn mul(self, rhs: Self) -> (r: Self) {
        self * rhs
    }

    fn div(self, rhs: Self) -> (r: Self) {
        self / rhs
    }

    fn neg(self) -> (r: Self) {
        -self
    }

    fn abs(self) -> (r: Self) {
        int_abs(self)
    }

    fn sqrt(self) -> (r: Self) {
        match int_sqrt(self) {
            Some(v) => {
                proof {
                    lemma_integer_root(self as int, v as int);
                }
                v
            },
            None => self,
        }
    }

    fn floor(self) -> (r: Self) {
        match int_floor(self) {
            Some(v) => v,
            None => self,
        }
    }

    fn ceil(self) -> (r: Self) {
        match int_ceil(self) {
            Some(v) => v,
            None => self,
        }
    }
}

} // verus!
