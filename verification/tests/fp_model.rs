//! The scalar model against the hardware: the trusted arithmetic wrappers
//! must agree with native binary64 arithmetic bit for bit on ordinary
//! values, and the verified comparison and sign operations must agree with
//! the native comparisons.

use findroot::fp::{
    fp_abs, fp_add, fp_div, fp_eq, fp_ge, fp_gt, fp_le, fp_lt, fp_max, fp_mul, fp_neg, fp_sub,
    F_HALF, F_ONE, F_TWO, F_ZERO,
};
use findroot::vecmath::{fp_dot, fp_matvec, fp_vadd, fp_vsub};

fn b(x: f64) -> u64 {
    x.to_bits()
}

#[test]
fn add_matches_hardware() {
    let cases = [
        (1.5, 2.25),
        (0.1, 0.2),
        (-7.25e100, 3.5e-200),
        (1e308, 1e308),
        (5e-324, 5e-324),
        (-0.0, 0.0),
        (f64::INFINITY, -3.0),
    ];
    for (x, y) in cases {
        assert_eq!(fp_add(b(x), b(y)), b(x + y), "add {x} {y}");
    }
}

#[test]
fn sub_mul_div_match_hardware() {
    let cases = [(1.5, 2.25), (0.3, 0.1), (-7.25e10, 3.5e-20), (2.0, 3.0), (1.0, 0.0)];
    for (x, y) in cases {
        assert_eq!(fp_sub(b(x), b(y)), b(x - y), "sub {x} {y}");
        assert_eq!(fp_mul(b(x), b(y)), b(x * y), "mul {x} {y}");
        assert_eq!(fp_div(b(x), b(y)), b(x / y), "div {x} {y}");
    }
}

#[test]
fn division_by_zero_is_infinite() {
    assert_eq!(fp_div(F_ONE, F_ZERO), b(f64::INFINITY));
    assert!(f64::from_bits(fp_div(F_ZERO, F_ZERO)).is_nan());
}

#[test]
fn comparisons_match_hardware() {
    let vals = [-3.5, -0.0, 0.0, 1.0e-300, 2.0, f64::INFINITY, f64::NEG_INFINITY, f64::NAN];
    for &x in &vals {
        for &y in &vals {
            assert_eq!(fp_lt(b(x), b(y)), x < y, "lt {x} {y}");
            assert_eq!(fp_le(b(x), b(y)), x <= y, "le {x} {y}");
            assert_eq!(fp_gt(b(x), b(y)), x > y, "gt {x} {y}");
            assert_eq!(fp_ge(b(x), b(y)), x >= y, "ge {x} {y}");
            assert_eq!(fp_eq(b(x), b(y)), x == y, "eq {x} {y}");
        }
    }
}

#[test]
fn abs_neg_max_match_hardware() {
    let vals = [-3.5, -0.0, 0.0, 2.0, f64::NEG_INFINITY];
    for &x in &vals {
        assert_eq!(fp_abs(b(x)), b(x.abs()), "abs {x}");
        assert_eq!(fp_neg(b(x)), b(-x), "neg {x}");
    }
    assert_eq!(fp_max(b(2.0), b(3.0)), b(3.0));
    assert_eq!(fp_max(b(3.0), b(2.0)), b(3.0));
    assert_eq!(fp_max(b(f64::NAN), b(2.0)), b(2.0));
    assert_eq!(fp_max(b(2.0), b(f64::NAN)), b(2.0));
}

#[test]
fn constants_are_the_encodings() {
    assert_eq!(F_ZERO, b(0.0));
    assert_eq!(F_ONE, b(1.0));
    assert_eq!(F_TWO, b(2.0));
    assert_eq!(F_HALF, b(0.5));
}

#[test]
fn dot_accumulates_left_to_right() {
    let a = vec![b(1.0), b(2.0), b(3.0)];
    let c = vec![b(4.0), b(5.0), b(6.0)];
    // ((0 + 1*4) + 2*5) + 3*6 = 32
    assert_eq!(fp_dot(&a, &c), b(32.0));
}

#[test]
fn matvec_and_elementwise_ops() {
    let m = vec![vec![b(1.0), b(2.0)], vec![b(3.0), b(4.0)]];
    let v = vec![b(5.0), b(6.0)];
    let r = fp_matvec(&m, &v);
    assert_eq!(r, vec![b(17.0), b(39.0)]);
    let s = fp_vadd(&v, &v);
    assert_eq!(s, vec![b(10.0), b(12.0)]);
    let d = fp_vsub(&v, &v);
    assert_eq!(d, vec![b(0.0), b(0.0)]);
}
