use chroma::color::presets;
use chroma::color::Color;
use chroma::common_colors::CommonColors;
use chroma::{ColorError, Fraction};

#[test]
fn color_h6_presets() {
    assert_eq!(Ok(presets::white()), Color::from_hex("ffffff"));
    assert_eq!(Ok(presets::black()), Color::from_hex("000000"));
    assert_eq!(Ok(presets::red()), Color::from_hex("ff0000"));
    assert_eq!(Ok(presets::green()), Color::from_hex("00ff00"));
    assert_eq!(Ok(presets::blue()), Color::from_hex("0000ff"));
}

#[test]
fn color_h6_custom() {
    assert_eq!(Ok(Color::from_rgb(166, 65, 21)), Color::from_hex("A64115"));
    assert_eq!(Ok(Color::from_rgb(21, 166, 65)), Color::from_hex("15A641"));
    assert_eq!(Ok(Color::from_rgb(65, 21, 166)), Color::from_hex("4115A6"));
}

#[test]
fn color_h3_presets() {
    assert_eq!(Ok(presets::white()), Color::from_hex("fff"));
    assert_eq!(Ok(presets::black()), Color::from_hex("000"));
    assert_eq!(Ok(presets::red()), Color::from_hex("f00"));
    assert_eq!(Ok(presets::green()), Color::from_hex("0f0"));
    assert_eq!(Ok(presets::blue()), Color::from_hex("00f"));
}

#[test]
fn color_h3_custom() {
    assert_eq!(Ok(Color::from_rgb(255, 51, 153)), Color::from_hex("f39"));
    assert_eq!(Ok(Color::from_rgb(153, 255, 51)), Color::from_hex("9f3"));
    assert_eq!(Ok(Color::from_rgb(51, 153, 255)), Color::from_hex("39f"));
}

#[test]
fn h3_custom() {
    assert_eq!("ff3399", Color::from_hex("f39").unwrap().to_hex());
    assert_eq!("225511", Color::from_hex("251").unwrap().to_hex());
    assert_eq!("aa3322", Color::from_hex("a32").unwrap().to_hex());
}

#[test]
fn color_h3_gray() {
    assert_eq!(Ok(Color::from_rgb(17, 17, 17)), Color::from_hex("111"));
    assert_eq!(Ok(Color::from_rgb(34, 34, 34)), Color::from_hex("222"));
    assert_eq!(Ok(Color::from_rgb(51, 51, 51)), Color::from_hex("333"));
}

#[test]
fn color_custom() {
    assert_eq!(Color::from_rgb(1, 2, 3), Color::from_rgb_tuple((1, 2, 3)));
    assert_eq!(
        Color::from_rgb(255, 0, 127),
        Color::from_rgb_tuple((255, 0, 127))
    );
}

#[test]
fn custom() {
    assert_eq!((2, 20, 200), Color::from_rgb(2, 20, 200).to_rgb_tuple());
    assert_eq!((42, 13, 5), Color::from_rgb(42, 13, 5).to_rgb_tuple());
    assert_eq!((80, 252, 1), Color::from_rgb(80, 252, 1).to_rgb_tuple());
}

#[test]
fn color_presets() {
    assert_eq!((255, 255, 255), presets::white().to_rgb_tuple());
    assert_eq!((0, 0, 0), presets::black().to_rgb_tuple());
}

#[test]
fn presets() {
    assert_eq!("ffffff", presets::white().to_hex());
    assert_eq!("000000", presets::black().to_hex());
    assert_eq!("ff0000", presets::red().to_hex());
    assert_eq!("00ff00", presets::green().to_hex());
    assert_eq!("0000ff", presets::blue().to_hex());
}

#[test]
fn white_is_white() {
    assert_eq!(
        Color::from_rgb(255, 255, 255),
        CommonColors::WHITE.as_color(),
    )
}

#[test]
fn black_is_black() {
    assert_eq!(Color::from_rgb(0, 0, 0), CommonColors::BLACK.as_color());
}

#[test]
fn color_getters() {
    let color = Color::from_rgb(1, 27, 49);
    assert_eq!(1, color.get_red());
    assert_eq!(27, color.get_green());
    assert_eq!(49, color.get_blue());
}

#[test]
fn color_to_hex_3_presets() {
    assert_eq!("fff", presets::white().to_hex_3());
    assert_eq!("000", presets::black().to_hex_3());
    assert_eq!("f00", presets::red().to_hex_3());
    assert_eq!("0f0", presets::green().to_hex_3());
    assert_eq!("00f", presets::blue().to_hex_3());
}

#[test]
fn color_to_hex_3_rounds_to_nearest_level() {
    assert_eq!("eee", Color::from_hex("f0f0f0").unwrap().to_hex_3());
    assert_eq!("123", Color::from_hex("102030").unwrap().to_hex_3());
    assert_eq!("9ce", Color::from_hex("a0c4ed").unwrap().to_hex_3());
}

#[test]
fn color_from_hex_rejects_other_lengths() {
    assert_eq!(Err(ColorError::InvalidFormat), Color::from_hex(""));
    assert_eq!(Err(ColorError::InvalidFormat), Color::from_hex("ab"));
    assert_eq!(Err(ColorError::InvalidFormat), Color::from_hex("abcd"));
    assert_eq!(Err(ColorError::InvalidFormat), Color::from_hex("abcdefg"));
    assert_eq!(Err(ColorError::InvalidFormat), Color::from_hex("xy"));
}

#[test]
fn color_from_hex_rejects_other_characters() {
    assert_eq!(Err(ColorError::InvalidDigit), Color::from_hex("axx"));
    assert_eq!(Err(ColorError::InvalidDigit), Color::from_hex("+ff"));
    assert_eq!(Err(ColorError::InvalidDigit), Color::from_hex("#fffff"));
    assert_eq!(Err(ColorError::InvalidDigit), Color::from_hex("ff ff "));
}

#[test]
fn color_hex_round_trip() {
    for (r, g, b) in [(0, 0, 0), (1, 2, 3), (166, 65, 21), (255, 255, 255), (16, 160, 9)] {
        let color = Color::from_rgb(r, g, b);
        assert_eq!(Ok(color), Color::from_hex(&color.to_hex()));
    }
}

#[test]
fn color_from_rgb_fraction() {
    let of = |num: i64, den: u64| Fraction { num, den };
    assert_eq!("ffffff", Color::from_rgb_fraction(of(1, 1), of(1, 1), of(1, 1)).to_hex());
    assert_eq!("000000", Color::from_rgb_fraction(of(0, 1), of(0, 1), of(0, 1)).to_hex());
    assert_eq!("333333", Color::from_rgb_fraction(of(1, 5), of(1, 5), of(1, 5)).to_hex());
    // values above one and below zero
    assert_eq!("ff0000", Color::from_rgb_fraction(of(2, 1), of(0, 1), of(0, 1)).to_hex());
    assert_eq!("0000cc", Color::from_rgb_fraction(of(-1, 2), of(-3, 1), of(8, 10)).to_hex());
}
