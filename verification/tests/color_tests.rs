use ws2812_pio::color::ColorBytes;
use ws2812_pio::color::ColorFormat;
use ws2812_pio::color::Rgb8;
use ws2812_pio::color::Rgbw8;

#[test]
fn rgb_word_layout() {
    // G in bits 31..24, R in 23..16, B in 15..8, low byte zero.
    let c = Rgb8 { r: 255, g: 0, b: 255 };
    assert_eq!(c.to_word(), 0x00FF_FF00);
    let c = Rgb8 { r: 0x12, g: 0x34, b: 0x56 };
    assert_eq!(c.to_word(), 0x3412_5600);
}

#[test]
fn rgbw_word_layout() {
    // G in bits 31..24, R in 23..16, B in 15..8, W in 7..0.
    let c = Rgbw8 { r: 255, g: 0, b: 255, w: 127 };
    assert_eq!(c.to_word(), 0x00FF_FF7F);
    let c = Rgbw8 { r: 0x12, g: 0x34, b: 0x56, w: 0x78 };
    assert_eq!(c.to_word(), 0x3412_5678);
}

#[test]
fn word_low_byte_zero_only_for_three_byte_format() {
    let rgb = Rgb8 { r: 9, g: 8, b: 7 };
    assert_eq!(rgb.to_word() & 0xFF, 0);
    let rgbw = Rgbw8 { r: 9, g: 8, b: 7, w: 6 };
    assert_eq!(rgbw.to_word() & 0xFF, 6);
}

#[test]
fn pull_thresholds_per_format() {
    assert_eq!(ColorBytes::ThreeBytes.num_bits(), 24);
    assert_eq!(ColorBytes::FourBytes.num_bits(), 32);
    assert!(matches!(Rgb8::color_bytes(), ColorBytes::ThreeBytes));
    assert!(matches!(Rgbw8::color_bytes(), ColorBytes::FourBytes));
}

#[test]
fn distinct_colors_pack_to_distinct_words() {
    let a = Rgb8 { r: 1, g: 2, b: 3 };
    let b = Rgb8 { r: 3, g: 2, b: 1 };
    assert_ne!(a.to_word(), b.to_word());
    let c = Rgbw8 { r: 0, g: 0, b: 0, w: 1 };
    let d = Rgbw8 { r: 0, g: 0, b: 0, w: 2 };
    assert_ne!(c.to_word(), d.to_word());
}
