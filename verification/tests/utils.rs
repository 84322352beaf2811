use luminary::utils::{has_nans_2, has_nans_3};
use std::f64;

#[test]
fn has_nans_3_true() {
    let x = 1.0;
    let y = 2.0;
    let z = f64::NAN;

    assert_eq!(true, has_nans_3(x, y, z))
}

#[test]
fn has_nans_3_false() {
    let x = 1.0;
    let y = 2.0;
    let z = 3.0;

    assert_eq!(false, has_nans_3(x, y, z))
}

#[test]
fn has_nans_2_true() {
    let x = 1.0;
    let y = f64::NAN;

    assert_eq!(true, has_nans_2(x, y))
}

#[test]
fn has_nans_2_false() {
    let x = 1.0;
    let y = 2.0;

    assert_eq!(false, has_nans_2(x, y))
}
