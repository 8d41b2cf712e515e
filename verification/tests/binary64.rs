use leptos_radix_ui::binary64::Binary64;

fn num(x: f64) -> Binary64 {
    Binary64::from_bits(x.to_bits())
}

fn samples() -> Vec<f64> {
    vec![
        0.0,
        -0.0,
        5e-324,
        -5e-324,
        2.2250738585072009e-308,
        f64::MIN_POSITIVE,
        -f64::MIN_POSITIVE,
        0.5,
        1.0,
        1.0000000000000002,
        -1.0,
        2.0,
        25.0,
        50.0,
        100.0,
        -100.0,
        1e300,
        f64::MAX,
        f64::MIN,
        f64::INFINITY,
        f64::NEG_INFINITY,
        f64::NAN,
        -f64::NAN,
        f64::from_bits(0x7ff0_0000_0000_0001),
    ]
}

#[test]
fn classification_agrees_with_doubles() {
    for x in samples() {
        let b = num(x);
        assert_eq!(b.is_nan(), x.is_nan(), "{x}");
        assert_eq!(b.is_finite(), x.is_finite(), "{x}");
        assert_eq!(b.to_bits(), x.to_bits());
    }
}

#[test]
fn order_agrees_with_doubles() {
    for x in samples() {
        for y in samples() {
            assert_eq!(num(x).lt(num(y)), x < y, "{x} < {y}");
            assert_eq!(num(x).le(num(y)), x <= y, "{x} <= {y}");
        }
    }
}

#[test]
fn zero_and_hundred() {
    assert_eq!(f64::from_bits(Binary64::zero().to_bits()), 0.0);
    assert_eq!(f64::from_bits(Binary64::hundred().to_bits()), 100.0);
    assert_eq!(Binary64::zero().to_bits(), 0);
}

#[test]
fn the_two_zeros_are_ordered_as_equal_but_are_not_the_same() {
    assert!(num(0.0).le(num(-0.0)) && num(-0.0).le(num(0.0)));
    assert!(num(0.0) != num(-0.0));
    assert!(!num(f64::NAN).le(num(f64::NAN)));
}

#[test]
fn rounded_percent_of_parts() {
    let cases: [(f64, f64, u8); 10] = [
        (25.0, 50.0, 50),
        (50.0, 50.0, 100),
        (0.0, 50.0, 0),
        (-0.0, 50.0, 0),
        (1.0, 8.0, 13),
        (3.0, 8.0, 38),
        (0.125, 25.0, 1),
        (0.1249, 25.0, 0),
        (5e-324, 5e-324, 100),
        (1.0, 1024.0, 0),
    ];
    for (v, m, want) in cases {
        assert_eq!(num(v).rounded_percent_of(num(m)), want, "{v} of {m}");
    }
}
