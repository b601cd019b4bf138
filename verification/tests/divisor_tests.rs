use ws2812_pio::divisor::clock_divisor;
use ws2812_pio::divisor::ConfigError;

#[test]
fn divisor_for_125_mhz_system_clock() {
    // 125 MHz / 8 MHz = 15 remainder 5 MHz; 5 MHz * 256 / 8 MHz = 160.
    let d = clock_divisor(125_000_000).unwrap();
    assert_eq!(d.int_reg, 15);
    assert_eq!(d.frac, 160);
}

#[test]
fn divisor_at_exact_program_clock() {
    let d = clock_divisor(8_000_000).unwrap();
    assert_eq!(d.int_reg, 1);
    assert_eq!(d.frac, 0);
}

#[test]
fn divisor_at_maximum_system_clock() {
    // u32::MAX / 8 MHz = 536, remainder 6_967_295; * 256 / 8 MHz = 222.
    let d = clock_divisor(u32::MAX).unwrap();
    assert_eq!(d.int_reg, 536);
    assert_eq!(d.frac, 222);
}

#[test]
fn divisor_rejects_clock_below_program_clock() {
    assert_eq!(clock_divisor(7_999_999), Err(ConfigError::DivisorOutOfRange));
    assert_eq!(clock_divisor(0), Err(ConfigError::DivisorOutOfRange));
}

#[test]
fn divisor_fraction_rounds_down() {
    // 12 MHz / 8 MHz = 1 remainder 4 MHz; 4 MHz * 256 / 8 MHz = 128 exactly.
    let d = clock_divisor(12_000_000).unwrap();
    assert_eq!(d.int_reg, 1);
    assert_eq!(d.frac, 128);
    // 8_031_250: remainder 31_250; 31_250 * 256 = 8_000_000, / 8 MHz = 1.
    let d = clock_divisor(8_031_250).unwrap();
    assert_eq!(d.int_reg, 1);
    assert_eq!(d.frac, 1);
    // Just below that boundary the fraction floors to 0.
    let d = clock_divisor(8_031_249).unwrap();
    assert_eq!(d.int_reg, 1);
    assert_eq!(d.frac, 0);
}
