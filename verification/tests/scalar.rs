use raymarcher::scalar::{
    Float32, FRAC_PI_2, FRAC_PI_3, INFINITY_MAGNITUDE, NEG_FRAC_PI_2, NEG_ONE, NEG_THREE, ONE,
    SIGN_BIT, ZERO,
};

fn samples() -> Vec<f32> {
    vec![
        0.0,
        -0.0,
        1.0,
        -1.0,
        0.5,
        -0.5,
        2.0,
        -2.0,
        std::f32::consts::FRAC_PI_2,
        -std::f32::consts::FRAC_PI_2,
        1.5707964,
        1.5707965,
        -1.5707965,
        3.0e38,
        -3.0e38,
        f32::MIN_POSITIVE,
        -f32::MIN_POSITIVE,
        1.0e-45,
        -1.0e-45,
        f32::MAX,
        f32::MIN,
        f32::INFINITY,
        f32::NEG_INFINITY,
        f32::NAN,
        -f32::NAN,
        f32::from_bits(0x7fc0_0001),
        f32::from_bits(0xff80_0001),
    ]
}

fn wrap(x: f32) -> Float32 {
    Float32::from_bits(x.to_bits())
}

#[test]
fn named_constants_hold_the_bits_of_their_values() {
    assert_eq!(ZERO, 0.0f32.to_bits());
    assert_eq!(ONE, 1.0f32.to_bits());
    assert_eq!(NEG_ONE, (-1.0f32).to_bits());
    assert_eq!(NEG_THREE, (-3.0f32).to_bits());
    assert_eq!(FRAC_PI_2, std::f32::consts::FRAC_PI_2.to_bits());
    assert_eq!(NEG_FRAC_PI_2, (-std::f32::consts::FRAC_PI_2).to_bits());
    assert_eq!(FRAC_PI_3, std::f32::consts::FRAC_PI_3.to_bits());
    assert_eq!(SIGN_BIT, (-0.0f32).to_bits());
    assert_eq!(INFINITY_MAGNITUDE, f32::INFINITY.to_bits());
}

#[test]
fn bits_go_in_and_come_out_unchanged() {
    for x in samples() {
        assert_eq!(wrap(x).to_bits(), x.to_bits());
        assert_eq!(wrap(x).bits, x.to_bits());
    }
}

#[test]
fn nan_and_zero_are_told_by_the_bits() {
    for x in samples() {
        assert_eq!(wrap(x).nan(), x.is_nan(), "{x}");
        assert_eq!(wrap(x).zero(), x == 0.0, "{x}");
    }
}

#[test]
fn less_than_is_the_numeric_order() {
    for a in samples() {
        for b in samples() {
            assert_eq!(wrap(a).less_than(wrap(b)), a < b, "{a} < {b}");
        }
    }
}

#[test]
fn the_two_zeros_are_not_apart_in_order_but_apart_in_bits() {
    let plus = wrap(0.0);
    let minus = wrap(-0.0);
    assert!(!plus.less_than(minus));
    assert!(!minus.less_than(plus));
    assert_ne!(plus, minus);
}

#[test]
fn clamp_is_the_numeric_clamp() {
    let bounds = [
        (-std::f32::consts::FRAC_PI_2, std::f32::consts::FRAC_PI_2),
        (0.0, 0.0),
        (-0.0, 0.0),
        (-1.0, 2.0),
        (f32::NEG_INFINITY, f32::INFINITY),
        (1.0, 1.0),
    ];
    for (lo, hi) in bounds {
        for x in samples() {
            let got = wrap(x).clamp(wrap(lo), wrap(hi));
            let want = x.clamp(lo, hi);
            assert_eq!(got.to_bits(), want.to_bits(), "{x} in [{lo}, {hi}]");
        }
    }
}

#[test]
fn clamp_exact_values() {
    let lo = wrap(-1.0);
    let hi = wrap(1.0);
    assert_eq!(wrap(3.5).clamp(lo, hi).to_bits(), 1.0f32.to_bits());
    assert_eq!(wrap(-3.5).clamp(lo, hi).to_bits(), (-1.0f32).to_bits());
    assert_eq!(wrap(0.25).clamp(lo, hi).to_bits(), 0.25f32.to_bits());
    assert!(f32::from_bits(wrap(f32::NAN).clamp(lo, hi).to_bits()).is_nan());
}

#[test]
fn the_fields_give_the_number() {
    for x in samples() {
        let (negative, exponent, mantissa) = wrap(x).fields();
        assert_eq!(negative, x.is_sign_negative(), "{x}");
        assert!(exponent <= 255 && mantissa < 0x80_0000);
        if x.is_nan() {
            assert!(exponent == 255 && mantissa != 0);
        } else if x.is_infinite() {
            assert!(exponent == 255 && mantissa == 0);
        } else {
            // in units of 2 to the power -149, as a double holds them exactly
            let significand = if exponent == 0 { mantissa } else { 0x80_0000 + mantissa };
            let shift = if exponent == 0 { 0 } else { exponent as i32 - 1 };
            let size = significand as f64 * 2.0f64.powi(shift) * 2.0f64.powi(-149);
            let value = if negative { -size } else { size };
            assert_eq!(value, x as f64, "{x}");
        }
    }
}

#[test]
fn fields_of_one() {
    assert_eq!(wrap(1.0).fields(), (false, 127, 0));
    assert_eq!(wrap(-3.0).fields(), (true, 128, 0x40_0000));
    assert_eq!(wrap(0.0).fields(), (false, 0, 0));
    assert_eq!(wrap(-0.0).fields(), (true, 0, 0));
}
