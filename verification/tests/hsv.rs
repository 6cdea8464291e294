use chroma::models::hsv::{check_hsv_input, presets};
use chroma::number_utils::{approx_equal_by_class, NumberClass};
use chroma::{Color, ColorError, ExactHSV, Fraction};

use NumberClass::{Finite, Infinity, Nan, NegInfinity};

fn classify(x: f64) -> NumberClass {
    if x.is_nan() {
        Nan
    } else if x == f64::INFINITY {
        Infinity
    } else if x == f64::NEG_INFINITY {
        NegInfinity
    } else {
        Finite
    }
}

fn approx_equal_f64(a: f64, b: f64, epsilon: f64) -> bool {
    approx_equal_by_class(classify(a), classify(b), (a - b).abs() < epsilon)
}

#[test]
fn hsv_white_black() {
    assert!(presets::white().is_white());
    assert!(presets::black().is_black());
}

#[test]
fn hsv_white_black_differ() {
    assert!(!presets::white().is_black());
    assert!(!presets::black().is_white());
    assert!(!presets::red().is_white());
    assert!(!presets::red().is_black());
}

#[test]
fn hsv_presets() {
    let whole = |h, s, v| ExactHSV {
        h: Fraction { num: h, den: 1 },
        s: Fraction { num: s, den: 1 },
        v: Fraction { num: v, den: 1 },
    };
    assert_eq!(whole(0, 0, 1), presets::white());
    assert_eq!(whole(0, 0, 0), presets::black());
    assert_eq!(whole(0, 1, 1), presets::red());
    assert_eq!(whole(120, 1, 1), presets::green());
    assert_eq!(whole(240, 1, 1), presets::blue());
}

#[test]
fn fraction_same_value() {
    let half = Fraction { num: 1, den: 2 };
    assert!(half.same_value(&Fraction { num: 2, den: 4 }));
    assert!(half.same_value(&Fraction { num: 127, den: 254 }));
    assert!(!half.same_value(&Fraction { num: 128, den: 255 }));
    assert!(!half.same_value(&Fraction { num: -1, den: 2 }));
    assert!(Fraction { num: -3, den: 6 }.same_value(&Fraction { num: -1, den: 2 }));
    let large = Fraction { num: i64::MAX, den: i64::MAX as u64 };
    assert!(large.same_value(&Fraction { num: 1, den: 1 }));
    assert!(!large.same_value(&Fraction { num: i64::MAX - 1, den: i64::MAX as u64 }));
    // what is not finite
    let (nan, inf, neg) = (of(0, 0), of(3, 0), of(-5, 0));
    assert!(nan.same_value(&nan));
    assert!(inf.same_value(&of(1, 0)));
    assert!(neg.same_value(&of(-1, 0)));
    assert!(!inf.same_value(&neg));
    assert!(!neg.same_value(&inf));
    assert!(!nan.same_value(&inf));
    assert!(!inf.same_value(&nan));
    assert!(!nan.same_value(&half));
    assert!(!half.same_value(&nan));
    assert!(!nan.same_value(&of(0, 1)));
    assert!(!inf.same_value(&large));
    let small = Fraction { num: i64::MIN, den: u64::MAX };
    assert!(small.same_value(&small));
    assert!(!small.same_value(&Fraction { num: i64::MIN + 1, den: u64::MAX }));
}

#[test]
fn fraction_class() {
    assert_eq!(Finite, Fraction { num: 0, den: 1 }.class());
    assert_eq!(Finite, Fraction { num: -7, den: 3 }.class());
    assert_eq!(Infinity, Fraction { num: 1, den: 0 }.class());
    assert_eq!(NegInfinity, Fraction { num: -1, den: 0 }.class());
    assert_eq!(Nan, Fraction { num: 0, den: 0 }.class());
}

fn of(num: i64, den: u64) -> Fraction {
    Fraction { num, den }
}

const NAN: Fraction = Fraction { num: 0, den: 0 };
const INFINITY: Fraction = Fraction { num: 1, den: 0 };
const NEG_INFINITY: Fraction = Fraction { num: -1, den: 0 };

#[test]
fn hsv_from_hsv_value_transform() {
    assert_eq!(
        ExactHSV::from_hsv(of(360 - 1, 1), of(0, 1), of(0, 1)),
        ExactHSV::from_hsv(of(0 - 1, 1), of(0 - 1, 1), of(0 - 1, 1))
    );
    assert_eq!(
        ExactHSV::from_hsv(of(0 + 1, 1), of(1, 1), of(1, 1)),
        ExactHSV::from_hsv(of(360 + 1, 1), of(1 + 1, 1), of(1 + 1, 1))
    );

    assert_eq!(
        ExactHSV::from_hsv(of(0, 1), of(0, 1), of(0, 1)),
        ExactHSV::from_hsv(of(0, 1), NEG_INFINITY, NEG_INFINITY)
    );

    assert_eq!(
        ExactHSV::from_hsv(of(360, 1), of(1, 1), of(1, 1)),
        ExactHSV::from_hsv(of(360, 1), INFINITY, INFINITY)
    );
}

#[test]
fn from_hsv_fails_without_a_number() {
    let one = of(1, 1);
    assert_eq!(Err(ColorError::InvalidNumericInput), ExactHSV::from_hsv(NAN, one, one));
    assert_eq!(Err(ColorError::InvalidNumericInput), ExactHSV::from_hsv(one, NAN, one));
    assert_eq!(Err(ColorError::InvalidNumericInput), ExactHSV::from_hsv(one, one, NAN));
    assert_eq!(Err(ColorError::InvalidNumericInput), ExactHSV::from_hsv(INFINITY, one, NAN));
}

#[test]
fn from_hsv_fails_with_an_infinite_hue() {
    let zero = of(0, 1);
    assert_eq!(Err(ColorError::NonFiniteHue), ExactHSV::from_hsv(INFINITY, zero, zero));
    assert_eq!(Err(ColorError::NonFiniteHue), ExactHSV::from_hsv(NEG_INFINITY, zero, zero));
    assert_eq!(Err(ColorError::NonFiniteHue), ExactHSV::from_hsv(INFINITY, INFINITY, INFINITY));
}

#[test]
fn from_hsv_clamps_infinite_saturation_and_value() {
    let color = ExactHSV::from_hsv(of(10, 1), INFINITY, INFINITY).unwrap();
    assert_eq!(of(10, 1), color.h);
    assert_eq!(of(1, 1), color.s);
    assert_eq!(of(1, 1), color.v);
    let color = ExactHSV::from_hsv(of(10, 1), NEG_INFINITY, INFINITY).unwrap();
    assert_eq!(of(0, 1), color.s);
    assert_eq!(of(1, 1), color.v);
}

#[test]
fn from_hsv_wraps_the_hue() {
    let hue = |num: i64, den: u64| ExactHSV::from_hsv(of(num, den), of(1, 2), of(1, 2)).unwrap().h;
    assert_eq!(of(0, 1), hue(0, 1));
    assert_eq!(of(359, 1), hue(359, 1));
    assert_eq!(of(0, 1), hue(360, 1));
    assert_eq!(of(1, 1), hue(361, 1));
    assert_eq!(of(1, 1), hue(721, 1));
    assert_eq!(of(359, 1), hue(-1, 1));
    assert_eq!(of(0, 1), hue(-360, 1));
    assert_eq!(of(240, 1), hue(-480, 1));
    // 725/2 degrees are 5/2 degrees
    assert_eq!(of(5, 2), hue(725, 2));
    // -1/3 of a degree is 359 2/3 degrees
    assert_eq!(of(1079, 3), hue(-1, 3));
    assert_eq!(of(7, 1), hue(i64::MAX, 1));
    assert_eq!(of(352, 1), hue(i64::MIN, 1));
}

#[test]
fn from_hsv_clamps_saturation_and_value() {
    let made = |s: Fraction, v: Fraction| {
        let color = ExactHSV::from_hsv(of(0, 1), s, v).unwrap();
        (color.s, color.v)
    };
    assert_eq!((of(1, 2), of(3, 4)), made(of(1, 2), of(3, 4)));
    assert_eq!((of(0, 1), of(1, 1)), made(of(0, 5), of(5, 5)));
    assert_eq!((of(0, 1), of(1, 1)), made(of(-1, 5), of(6, 5)));
    assert_eq!((of(1, 1), of(0, 1)), made(of(i64::MAX, 1), of(i64::MIN, 1)));
    assert_eq!((of(2, 4), of(1, 1073741823)), made(of(2, 4), of(1, 1073741823)));
}

#[test]
fn from_hsv_makes_convertible_colours() {
    for (h, s, v) in [(of(-725, 2), of(7, 3), of(1, 3)), (of(1, 1073741823), INFINITY, of(1, 7))] {
        let color = ExactHSV::from_hsv(h, s, v).unwrap();
        assert!(color.is_well_formed());
        assert!(chroma::converter::is_convertible(&color));
    }
}

#[test]
fn from_hsv_nan_is_refused() {
    assert_eq!(Err(ColorError::InvalidNumericInput), check_hsv_input(Nan, Finite, Finite));
    assert_eq!(Err(ColorError::InvalidNumericInput), check_hsv_input(Finite, Nan, Finite));
    assert_eq!(Err(ColorError::InvalidNumericInput), check_hsv_input(Finite, Finite, Nan));
    assert_eq!(Err(ColorError::InvalidNumericInput), check_hsv_input(Nan, Nan, Nan));
    // a value that is not a number counts before an infinite hue
    assert_eq!(Err(ColorError::InvalidNumericInput), check_hsv_input(Infinity, Nan, Finite));
    assert_eq!(
        Err(ColorError::InvalidNumericInput),
        check_hsv_input(classify(f64::NAN), classify(1.0), classify(1.0))
    );
}

#[test]
fn from_hsv_infinite_hue_is_refused() {
    assert_eq!(Err(ColorError::NonFiniteHue), check_hsv_input(Infinity, Finite, Finite));
    assert_eq!(Err(ColorError::NonFiniteHue), check_hsv_input(NegInfinity, Finite, Finite));
    assert_eq!(Err(ColorError::NonFiniteHue), check_hsv_input(Infinity, Infinity, NegInfinity));
    assert_eq!(
        Err(ColorError::NonFiniteHue),
        check_hsv_input(classify(f64::INFINITY), classify(0.0), classify(0.0))
    );
}

#[test]
fn from_hsv_infinite_saturation_and_value_are_accepted() {
    assert_eq!(Ok(()), check_hsv_input(Finite, Finite, Finite));
    assert_eq!(Ok(()), check_hsv_input(Finite, Infinity, Infinity));
    assert_eq!(Ok(()), check_hsv_input(Finite, NegInfinity, NegInfinity));
    assert_eq!(Ok(()), check_hsv_input(Finite, Infinity, NegInfinity));
    assert_eq!(
        Ok(()),
        check_hsv_input(classify(10.0), classify(f64::INFINITY), classify(f64::INFINITY))
    );
}

#[test]
fn float_class_tells() {
    assert!(Nan.is_nan() && !Nan.is_finite() && !Nan.is_infinite());
    assert!(!Finite.is_nan() && Finite.is_finite() && !Finite.is_infinite());
    assert!(!Infinity.is_nan() && !Infinity.is_finite() && Infinity.is_infinite());
    assert!(!NegInfinity.is_nan() && !NegInfinity.is_finite() && NegInfinity.is_infinite());
}

#[test]
fn approx_equal_rule_of_classes() {
    // not a number equals not a number
    assert!(approx_equal_by_class(Nan, Nan, false));
    assert!(approx_equal_by_class(Nan, Nan, true));
    // one finite, one not
    for other in [Nan, Infinity, NegInfinity] {
        assert!(!approx_equal_by_class(other, Finite, true));
        assert!(!approx_equal_by_class(Finite, other, true));
        assert!(!approx_equal_by_class(other, Finite, false));
    }
    // infinities by sign
    assert!(approx_equal_by_class(Infinity, Infinity, false));
    assert!(approx_equal_by_class(NegInfinity, NegInfinity, false));
    assert!(!approx_equal_by_class(Infinity, NegInfinity, true));
    assert!(!approx_equal_by_class(NegInfinity, Infinity, true));
    // an infinity and what is not a number
    assert!(!approx_equal_by_class(Infinity, Nan, true));
    assert!(!approx_equal_by_class(Nan, NegInfinity, true));
    // two finite numbers: the tolerance decides
    assert!(approx_equal_by_class(Finite, Finite, true));
    assert!(!approx_equal_by_class(Finite, Finite, false));
}

#[test]
fn approx_equal_special_values() {
    let epsilon = 0.000_000_1;
    assert!(approx_equal_f64(f64::NAN, f64::NAN, epsilon));
    assert!(approx_equal_f64(f64::INFINITY, f64::INFINITY, epsilon));
    assert!(!approx_equal_f64(f64::INFINITY, f64::NEG_INFINITY, epsilon));
    assert!(!approx_equal_f64(f64::INFINITY, 1.0, epsilon));
}

#[test]
fn hsv_from_hsv_u8_works() {
    let from_hsv = |h, s, v| ExactHSV::from_hsv(h, s, v).unwrap();
    assert!(from_hsv(of(0, 1), of(0, 1), of(0, 1))
        .same_color(&ExactHSV::from_hsv_u8(u8::MIN, u8::MIN, u8::MIN)));
    assert!(from_hsv(of(72, 1), of(2, 10), of(2, 10))
        .same_color(&ExactHSV::from_hsv_u8(51, 51, 51)));
    assert!(from_hsv(of(360, 1), of(1, 1), of(1, 1))
        .same_color(&ExactHSV::from_hsv_u8(u8::MAX, u8::MAX, u8::MAX)));
}

#[test]
fn from_hsv_u8_in_terms() {
    let color = ExactHSV::from_hsv_u8(51, 0, 255);
    assert_eq!(of(51 * 360, 255), color.h);
    assert_eq!(of(0, 1), color.s);
    assert_eq!(of(1, 1), color.v);
    let color = ExactHSV::from_hsv_u8(254, 1, 254);
    assert_eq!(of(254 * 360, 255), color.h);
    assert_eq!(of(1, 255), color.s);
    assert_eq!(of(254, 255), color.v);
    assert_eq!(of(0, 255), ExactHSV::from_hsv_u8(255, 7, 7).h);
}

#[test]
fn hsv_as_tuple_u8_works() {
    let from_hsv = |h, s, v| ExactHSV::from_hsv(h, s, v).unwrap();
    assert_eq!((0, 0, 0), from_hsv(of(0, 1), of(0, 1), of(0, 1)).as_tuple_u8());
    assert_eq!((0, 255, 255), from_hsv(of(360, 1), of(1, 1), of(1, 1)).as_tuple_u8());
    assert_eq!(
        (127, 127, 51),
        from_hsv(of(360, 2), of(1, 2), of(1, 5)).as_tuple_u8()
    );
}

#[test]
fn as_tuple_u8_inverts_from_hsv_u8() {
    for byte in 0..=255u8 {
        let tuple = ExactHSV::from_hsv_u8(byte, byte, 255 - byte).as_tuple_u8();
        // the full turn is no turn
        let hue = if byte == 255 { 0 } else { byte };
        assert_eq!((hue, byte, 255 - byte), tuple);
    }
}

#[test]
fn as_tuple_u8_of_what_is_out_of_range() {
    let color = ExactHSV { h: of(720, 1), s: of(-1, 2), v: of(1, 0) };
    assert_eq!((255, 0, 255), color.as_tuple_u8());
    let color = ExactHSV { h: of(0, 0), s: of(-1, 0), v: of(256, 255) };
    assert_eq!((0, 0, 255), color.as_tuple_u8());
    let color = ExactHSV { h: of(359, 1), s: of(254, 255), v: of(2549, 2550) };
    assert_eq!((254, 254, 254), color.as_tuple_u8());
}

#[test]
fn fraction_approx_equal_special_values() {
    let epsilon = of(1, 10_000_000);
    assert!(NAN.approx_equal(&NAN, &epsilon));
    assert!(INFINITY.approx_equal(&INFINITY, &epsilon));
    assert!(NEG_INFINITY.approx_equal(&NEG_INFINITY, &epsilon));
    assert!(!INFINITY.approx_equal(&NEG_INFINITY, &epsilon));
    assert!(!NEG_INFINITY.approx_equal(&INFINITY, &epsilon));
    assert!(!INFINITY.approx_equal(&of(1, 1), &epsilon));
    assert!(!of(1, 1).approx_equal(&INFINITY, &epsilon));
    assert!(!NAN.approx_equal(&of(2, 1), &epsilon));
    assert!(!of(2, 1).approx_equal(&NAN, &epsilon));
    assert!(!NAN.approx_equal(&INFINITY, &epsilon));
    assert!(!NEG_INFINITY.approx_equal(&NAN, &epsilon));
    // not even an infinite epsilon brings them together
    assert!(!INFINITY.approx_equal(&NEG_INFINITY, &INFINITY));
    assert!(!NAN.approx_equal(&of(0, 1), &INFINITY));
}

#[test]
fn fraction_approx_equal_finite_values() {
    // 1.01 and 1.02
    let (a, b) = (of(101, 100), of(102, 100));
    assert!(!a.approx_equal(&b, &of(1, 100)));
    assert!(!b.approx_equal(&a, &of(1, 100)));
    assert!(a.approx_equal(&b, &of(1, 10)));
    assert!(b.approx_equal(&a, &of(1, 10)));
    assert!(a.approx_equal(&b, &of(11, 1000)));
    // -29.12345 and -29.12346
    let (a, b) = (of(-2912345, 100000), of(-2912346, 100000));
    assert!(!a.approx_equal(&b, &of(1, 100000)));
    assert!(a.approx_equal(&b, &of(1, 10000)));
    // equal values in other terms
    assert!(of(1, 2).approx_equal(&of(2, 4), &of(1, 1_000_000_000)));
    assert!(!of(291124521, 10000000).approx_equal(&of(-291124521, 10000000), &of(1, 100000)));
    // an epsilon of nothing, of less and of no number lets nothing be equal
    assert!(!of(1, 2).approx_equal(&of(1, 2), &of(0, 1)));
    assert!(!of(1, 2).approx_equal(&of(1, 2), &of(-1, 1)));
    assert!(!of(1, 2).approx_equal(&of(1, 2), &NAN));
    assert!(of(1, 2).approx_equal(&of(7, 1), &INFINITY));
    // the largest terms
    let large = of(i64::MAX, 0x3fff_ffff);
    let small = of(i64::MIN, 0x3fff_ffff);
    assert!(large.approx_equal(&large, &of(1, 0x3fff_ffff)));
    assert!(!large.approx_equal(&small, &of(i64::MAX, 0x3fff_ffff)));
    assert!(small.approx_equal(&of(i64::MIN + 1, 0x3fff_ffff), &of(1, 0x3fff_fffe)));
}

#[test]
fn hsv_approx_equal() {
    let a = ExactHSV { h: of(120, 1), s: of(1, 2), v: of(1, 3) };
    let b = ExactHSV { h: of(1200001, 10000), s: of(50001, 100000), v: of(33333, 100000) };
    assert!(a.approx_equal(&b, &of(2, 100)));
    assert!(!a.approx_equal(&b, &of(1, 10_000_000)));
    assert!(a.approx_equal(&a, &of(1, 10_000_000)));
    assert!(!a.same_color(&b));
    // one channel apart is apart
    let c = ExactHSV { v: of(1, 2), ..a };
    assert!(!a.approx_equal(&c, &of(1, 10)));
    assert!(a.approx_equal(&c, &of(1, 5)));
}
