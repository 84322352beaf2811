use luminary::utils::{has_nans_2, has_nans_3, lerp};
use luminary::value::Value;

#[test]
fn zero_and_one() {
    assert_eq!(0, <i32 as Value>::zero());
    assert_eq!(1, <i32 as Value>::one());
}

#[test]
fn bounds_of_the_type() {
    assert_eq!(i32::MIN, <i32 as Value>::min_value());
    assert_eq!(i32::MAX, <i32 as Value>::max_value());
}

#[test]
fn min_and_max() {
    assert_eq!(2, Value::min(2, 5));
    assert_eq!(2, Value::min(5, 2));
    assert_eq!(5, Value::max(2, 5));
    assert_eq!(5, Value::max(5, 2));
    assert_eq!(-3, Value::min(-3, -3));
    assert_eq!(-3, Value::max(-3, -3));
}

#[test]
fn comparisons() {
    assert!(Value::lt(1, 2));
    assert!(!Value::lt(2, 2));
    assert!(Value::gt(3, 2));
    assert!(!Value::gt(2, 2));
    assert!(Value::le(2, 2));
    assert!(!Value::le(3, 2));
    assert!(Value::ge(2, 2));
    assert!(!Value::ge(1, 2));
    assert!(Value::equals(7, 7));
    assert!(!Value::equals(7, 8));
}

#[test]
fn arithmetic() {
    assert_eq!(5, Value::add(2, 3));
    assert_eq!(-1, Value::sub(2, 3));
    assert_eq!(6, Value::mul(2, 3));
    assert_eq!(-6, Value::neg(6));
    assert_eq!(i32::MAX, Value::add(i32::MAX - 1, 1));
    assert_eq!(i32::MIN, Value::sub(i32::MIN + 1, 1));
}

#[test]
fn division_rounds_toward_zero() {
    assert_eq!(3, Value::div(7, 2));
    assert_eq!(-3, Value::div(-7, 2));
    assert_eq!(-3, Value::div(7, -2));
    assert_eq!(3, Value::div(-7, -2));
    assert_eq!(0, Value::div(0, 5));
    assert_eq!(0, Value::div(1, 2));
    assert_eq!(i32::MAX, Value::div(i32::MIN + 1, -1));
}

#[test]
fn abs_of_an_integer() {
    assert_eq!(3, Value::abs(-3));
    assert_eq!(3, Value::abs(3));
    assert_eq!(0, Value::abs(0));
    assert_eq!(i32::MAX, Value::abs(i32::MIN + 1));
}

#[test]
fn sqrt_of_an_integer_is_the_integer_root() {
    assert_eq!(0, Value::sqrt(0));
    assert_eq!(1, Value::sqrt(1));
    assert_eq!(1, Value::sqrt(3));
    assert_eq!(2, Value::sqrt(4));
    assert_eq!(3, Value::sqrt(14));
    assert_eq!(4, Value::sqrt(16));
    assert_eq!(4, Value::sqrt(24));
    assert_eq!(46339, Value::sqrt(46340 * 46340 - 1));
    assert_eq!(46340, Value::sqrt(46340 * 46340));
    assert_eq!(46340, Value::sqrt(i32::MAX));
}

#[test]
fn sqrt_of_every_square_and_its_neighbours() {
    let mut r: i32 = 1;
    while r <= 46340 {
        assert_eq!(r, Value::sqrt(r * r));
        assert_eq!(r - 1, Value::sqrt(r * r - 1));
        r += 1;
    }
}

#[test]
fn floor_and_ceil_of_an_integer() {
    for x in [i32::MIN, -7, -1, 0, 1, 7, 16_777_217, i32::MAX] {
        assert_eq!(x, Value::floor(x));
        assert_eq!(x, Value::ceil(x));
    }
}

#[test]
fn lerp_takes_the_weights_as_written() {
    // (-1 - t) * v1 + t * v2
    assert_eq!(-10, lerp(0, 10, 20));
    assert_eq!(0, lerp(1, 10, 20));
    assert_eq!(-30, lerp(-2, 10, 20));
}

#[test]
fn has_nans_of_integers() {
    assert_eq!(false, has_nans_3(1, 2, 3));
    assert_eq!(false, has_nans_2(1, 2));
}
