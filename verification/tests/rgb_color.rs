use chroma::models::rgb::rgb24::presets;
use chroma::{Color, ExactHSV, RGB24};

fn as_numbers(color: ExactHSV) -> (f64, f64, f64) {
    (
        color.h.num as f64 / color.h.den as f64,
        color.s.num as f64 / color.s.den as f64,
        color.v.num as f64 / color.v.den as f64,
    )
}

#[test]
fn rgb_color_h6_presets() {
    assert_eq!(Ok(presets::white()), RGB24::from_hex("ffffff"));
    assert_eq!(Ok(presets::black()), RGB24::from_hex("000000"));
    assert_eq!(Ok(presets::red()), RGB24::from_hex("ff0000"));
    assert_eq!(Ok(presets::green()), RGB24::from_hex("00ff00"));
    assert_eq!(Ok(presets::blue()), RGB24::from_hex("0000ff"));
}

#[test]
fn rgb_color_h6_custom() {
    assert_eq!(Ok(RGB24::from_rgb(166, 65, 21)), RGB24::from_hex("A64115"));
    assert_eq!(Ok(RGB24::from_rgb(21, 166, 65)), RGB24::from_hex("15A641"));
    assert_eq!(Ok(RGB24::from_rgb(65, 21, 166)), RGB24::from_hex("4115A6"));
}

#[test]
fn rgb_color_h3_presets() {
    assert_eq!(Ok(presets::white()), RGB24::from_hex("fff"));
    assert_eq!(Ok(presets::black()), RGB24::from_hex("000"));
    assert_eq!(Ok(presets::red()), RGB24::from_hex("f00"));
    assert_eq!(Ok(presets::green()), RGB24::from_hex("0f0"));
    assert_eq!(Ok(presets::blue()), RGB24::from_hex("00f"));
}

#[test]
fn rgb_color_h3_custom() {
    assert_eq!(Ok(RGB24::from_rgb(255, 51, 153)), RGB24::from_hex("f39"));
    assert_eq!(Ok(RGB24::from_rgb(153, 255, 51)), RGB24::from_hex("9f3"));
    assert_eq!(Ok(RGB24::from_rgb(51, 153, 255)), RGB24::from_hex("39f"));

    assert_eq!("ff3399", RGB24::from_hex("f39").unwrap().to_hex());
    assert_eq!("225511", RGB24::from_hex("251").unwrap().to_hex());
    assert_eq!("aa3322", RGB24::from_hex("a32").unwrap().to_hex());
}

#[test]
fn rgb_color_h3_gray() {
    assert_eq!(Ok(RGB24::from_rgb(17, 17, 17)), RGB24::from_hex("111"));
    assert_eq!(Ok(RGB24::from_rgb(34, 34, 34)), RGB24::from_hex("222"));
    assert_eq!(Ok(RGB24::from_rgb(51, 51, 51)), RGB24::from_hex("333"));
}

#[test]
fn rgb_color_custom() {
    assert_eq!(RGB24::from_rgb(1, 2, 3), RGB24::from((1, 2, 3)));
    assert_eq!(RGB24::from_rgb(255, 0, 127), RGB24::from((255, 0, 127)));

    assert_eq!((2, 20, 200), RGB24::from_rgb(2, 20, 200).as_tuple());
    assert_eq!((42, 13, 5), RGB24::from_rgb(42, 13, 5).as_tuple());
    assert_eq!((80, 252, 1), RGB24::from_rgb(80, 252, 1).as_tuple());

    assert_eq!("eee", RGB24::from_hex("f0f0f0").unwrap().to_hex_short());
    assert_eq!("123", RGB24::from_hex("102030").unwrap().to_hex_short());
    assert_eq!("9ce", RGB24::from_hex("a0c4ed").unwrap().to_hex_short());
}

#[test]
fn rgb_color_presets() {
    assert_eq!((255, 255, 255), presets::white().as_tuple());
    assert_eq!((0, 0, 0), presets::black().as_tuple());

    assert_eq!("ffffff", presets::white().to_hex());
    assert_eq!("000000", presets::black().to_hex());
    assert_eq!("ff0000", presets::red().to_hex());
    assert_eq!("00ff00", presets::green().to_hex());
    assert_eq!("0000ff", presets::blue().to_hex());

    assert_eq!("fff", presets::white().to_hex_short());
    assert_eq!("000", presets::black().to_hex_short());
    assert_eq!("f00", presets::red().to_hex_short());
    assert_eq!("0f0", presets::green().to_hex_short());
    assert_eq!("00f", presets::blue().to_hex_short());

    assert_eq!((0.0, 0.0, 1.0), as_numbers(presets::white().to_hsv()));
    assert_eq!((0.0, 0.0, 0.0), as_numbers(presets::black().to_hsv()));
    assert_eq!((0.0, 1.0, 1.0), as_numbers(presets::red().to_hsv()));
    assert_eq!((120.0, 1.0, 1.0), as_numbers(presets::green().to_hsv()));
    assert_eq!((240.0, 1.0, 1.0), as_numbers(presets::blue().to_hsv()));
}

#[test]
fn hsv_color_presets() {
    assert_eq!((0.0, 0.0, 1.0), as_numbers(presets::white().to_hsv()));
    assert_eq!((0.0, 0.0, 0.0), as_numbers(presets::black().to_hsv()));
    assert_eq!((0.0, 1.0, 1.0), as_numbers(presets::red().to_hsv()));
    assert_eq!((120.0, 1.0, 1.0), as_numbers(presets::green().to_hsv()));
    assert_eq!((240.0, 1.0, 1.0), as_numbers(presets::blue().to_hsv()));
}

#[test]
fn rgb_new_() {
    assert_eq!(presets::black(), RGB24::new());
}

#[test]
fn rgb_set_red_() {
    let mut color = RGB24::new();
    assert_eq!(0, color.red());
    color.set_red(3);
    assert_eq!(3, color.red());
    assert_eq!(0, color.green());
    assert_eq!(0, color.blue());
}

#[test]
fn rgb_set_green_() {
    let mut color = RGB24::new();
    assert_eq!(0, color.green());
    color.set_green(42);
    assert_eq!(0, color.red());
    assert_eq!(42, color.green());
    assert_eq!(0, color.blue());
}

#[test]
fn rgb_set_blue_() {
    let mut color = RGB24::new();
    assert_eq!(0, color.blue());
    color.set_blue(127);
    assert_eq!(0, color.red());
    assert_eq!(0, color.green());
    assert_eq!(127, color.blue());
}

#[test]
fn rgb_as_tuple_() {
    let color = RGB24::from((1, 27, 49));
    assert_eq!((1, 27, 49), color.as_tuple());
}

#[test]
fn rgb_from_int_4() {
    assert_eq!(Ok(presets::black()), RGB24::from_int(0, 4));
    assert_eq!(Ok(presets::white()), RGB24::from_int(u32::pow(4, 3) - 1, 4));

    assert_eq!(Ok(presets::black()), RGB24::from_int(0, 16));
    assert_eq!(Ok(presets::white()), RGB24::from_int(u32::pow(16, 3) - 1, 16));

    assert_eq!(Ok(presets::black()), RGB24::from_int(0, 256));
    assert_eq!(Ok(presets::white()), RGB24::from_int(u32::pow(256, 3) - 1, 256));
}

#[test]
fn rgb_from_hex_h6_presets() {
    assert_eq!(Ok(presets::white()), RGB24::from_hex("ffffff"));
    assert_eq!(Ok(presets::black()), RGB24::from_hex("000000"));
    assert_eq!(Ok(presets::red()), RGB24::from_hex("ff0000"));
    assert_eq!(Ok(presets::green()), RGB24::from_hex("00ff00"));
    assert_eq!(Ok(presets::blue()), RGB24::from_hex("0000ff"));
}

#[test]
fn rgb_from_hex_h6_custom() {
    assert_eq!(Ok(RGB24::from_rgb(166, 65, 21)), RGB24::from_hex("A64115"));
    assert_eq!(Ok(RGB24::from_rgb(21, 166, 65)), RGB24::from_hex("15A641"));
    assert_eq!(Ok(RGB24::from_rgb(65, 21, 166)), RGB24::from_hex("4115A6"));
}

#[test]
fn rgb_from_hex_h3_presets() {
    assert_eq!(Ok(presets::white()), RGB24::from_hex("fff"));
    assert_eq!(Ok(presets::black()), RGB24::from_hex("000"));
    assert_eq!(Ok(presets::red()), RGB24::from_hex("f00"));
    assert_eq!(Ok(presets::green()), RGB24::from_hex("0f0"));
    assert_eq!(Ok(presets::blue()), RGB24::from_hex("00f"));
}

#[test]
fn rgb_from_hex_h3_custom() {
    assert_eq!(Ok(RGB24::from_rgb(255, 51, 153)), RGB24::from_hex("f39"));
    assert_eq!(Ok(RGB24::from_rgb(153, 255, 51)), RGB24::from_hex("9f3"));
    assert_eq!(Ok(RGB24::from_rgb(51, 153, 255)), RGB24::from_hex("39f"));
}

#[test]
fn rgb_from_hex_h3_gray() {
    assert_eq!(Ok(RGB24::from_rgb(17, 17, 17)), RGB24::from_hex("111"));
    assert_eq!(Ok(RGB24::from_rgb(34, 34, 34)), RGB24::from_hex("222"));
    assert_eq!(Ok(RGB24::from_rgb(51, 51, 51)), RGB24::from_hex("333"));
}

#[test]
fn rgb_from_rgb_tuple_custom() {
    assert_eq!(RGB24::from_rgb(1, 2, 3), RGB24::from((1, 2, 3)));
    assert_eq!(RGB24::from_rgb(255, 0, 127), RGB24::from((255, 0, 127)));
}

#[test]
fn rgb_to_rgb_tuple_presets() {
    assert_eq!((255, 255, 255), presets::white().as_tuple());
    assert_eq!((0, 0, 0), presets::black().as_tuple());
}

#[test]
fn rgb_to_rgb_tuple_custom() {
    assert_eq!((2, 20, 200), RGB24::from_rgb(2, 20, 200).as_tuple());
    assert_eq!((42, 13, 5), RGB24::from_rgb(42, 13, 5).as_tuple());
    assert_eq!((80, 252, 1), RGB24::from_rgb(80, 252, 1).as_tuple());
}

#[test]
fn rgb_to_hex_presets() {
    assert_eq!("ffffff", presets::white().to_hex());
    assert_eq!("000000", presets::black().to_hex());
    assert_eq!("ff0000", presets::red().to_hex());
    assert_eq!("00ff00", presets::green().to_hex());
    assert_eq!("0000ff", presets::blue().to_hex());
}

#[test]
fn rgb_to_hex_h3_custom() {
    assert_eq!("ff3399", RGB24::from_hex("f39").unwrap().to_hex());
    assert_eq!("225511", RGB24::from_hex("251").unwrap().to_hex());
    assert_eq!("aa3322", RGB24::from_hex("a32").unwrap().to_hex());
}

#[test]
fn rgb_to_hex_short_presets() {
    assert_eq!("fff", presets::white().to_hex_short());
    assert_eq!("000", presets::black().to_hex_short());
    assert_eq!("f00", presets::red().to_hex_short());
    assert_eq!("0f0", presets::green().to_hex_short());
    assert_eq!("00f", presets::blue().to_hex_short());
}

#[test]
fn rgb_to_hex_short_custom() {
    assert_eq!("eee", RGB24::from_hex("f0f0f0").unwrap().to_hex_short());
    assert_eq!("123", RGB24::from_hex("102030").unwrap().to_hex_short());
    assert_eq!("9ce", RGB24::from_hex("a0c4ed").unwrap().to_hex_short());
}

#[test]
fn rgb_fmt_() {
    assert_eq!("(R:0, G:0, B:0)", format!("{}", presets::black().to_string()));
    assert_eq!(
        "(R:255, G:255, B:255)",
        format!("{}", presets::white().to_string())
    );
    assert_eq!("(R:0, G:255, B:0)", format!("{}", presets::green().to_string()));
}

#[test]
fn rgb_is_white_() {
    assert!(presets::white().is_white())
}

#[test]
fn rgb_is_black_() {
    assert!(presets::black().is_black())
}
