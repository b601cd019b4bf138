use ws2812_pio::color::ColorFormat;
use ws2812_pio::color::Rgb8;
use ws2812_pio::color::Rgbw8;
use ws2812_pio::divisor::ConfigError;
use ws2812_pio::driver::CountDownTimer;
use ws2812_pio::driver::Ws2812;
use ws2812_pio::driver::Ws2812Direct;

#[test]
fn construction_fails_fatally_on_slow_clock() {
    assert!(matches!(
        Ws2812Direct::<Rgb8>::new(1_000),
        Err(ConfigError::DivisorOutOfRange)
    ));
    assert!(matches!(
        Ws2812::<Rgb8>::new(7_999_999, CountDownTimer::new()),
        Err(ConfigError::DivisorOutOfRange)
    ));
}

#[test]
fn empty_write_queues_nothing_and_succeeds() {
    let mut ws = Ws2812Direct::<Rgb8>::new(125_000_000).unwrap();
    let colors: Vec<Rgb8> = Vec::new();
    assert_eq!(ws.write(&colors), Ok(()));
    assert_eq!(ws.queued_word_count(), 0);
}

#[test]
fn write_queues_words_in_input_order() {
    let mut ws = Ws2812Direct::<Rgb8>::new(125_000_000).unwrap();
    let a = Rgb8 { r: 1, g: 2, b: 3 };
    let b = Rgb8 { r: 4, g: 5, b: 6 };
    let c = Rgb8 { r: 7, g: 8, b: 9 };
    let colors = vec![a, b, c];
    assert_eq!(ws.write(&colors), Ok(()));
    assert_eq!(ws.queued_word_count(), 3);
    assert_eq!(ws.queued_word(0), a.to_word());
    assert_eq!(ws.queued_word(1), b.to_word());
    assert_eq!(ws.queued_word(2), c.to_word());
}

#[test]
fn consecutive_writes_append_in_order() {
    let mut ws = Ws2812Direct::<Rgbw8>::new_sk6218(125_000_000).unwrap();
    let a = Rgbw8 { r: 255, g: 0, b: 255, w: 127 };
    let b = Rgbw8 { r: 0, g: 255, b: 0, w: 0 };
    assert_eq!(ws.write(&vec![a]), Ok(()));
    assert_eq!(ws.write(&vec![b]), Ok(()));
    assert_eq!(ws.queued_word_count(), 2);
    assert_eq!(ws.queued_word(0), 0x00FF_FF7F);
    assert_eq!(ws.queued_word(1), b.to_word());
}

#[test]
fn gated_write_waits_the_latch_gap_every_call() {
    let mut ws = Ws2812::<Rgb8>::new(125_000_000, CountDownTimer::new()).unwrap();
    let frame = vec![
        Rgb8 { r: 1, g: 1, b: 1 },
        Rgb8 { r: 2, g: 2, b: 2 },
        Rgb8 { r: 3, g: 3, b: 3 },
    ];
    assert_eq!(ws.write(&frame), Ok(()));
    // Nothing was pending, so the drain is observed immediately and the
    // pushes begin one full latch gap later.
    assert_eq!(ws.last_drained_at_micros(), 0);
    assert_eq!(ws.last_write_began_at_micros(), 60);
    assert!(ws.last_write_began_at_micros() - ws.last_drained_at_micros() >= 60);

    assert_eq!(ws.write(&frame), Ok(()));
    // The three 24-bit words of the first frame occupy 3 * 30 us on the
    // wire before the queue stalls empty; then the gap is waited again.
    assert_eq!(ws.last_drained_at_micros(), 60 + 90);
    assert_eq!(ws.last_write_began_at_micros(), 60 + 90 + 60);
    assert!(ws.last_write_began_at_micros() - ws.last_drained_at_micros() >= 60);
    assert_eq!(ws.queued_word_count(), 6);
}

#[test]
fn gated_write_of_rgbw_accounts_forty_micros_per_word() {
    let mut ws = Ws2812::<Rgbw8>::new_sk6812(125_000_000, CountDownTimer::new()).unwrap();
    let frame = vec![Rgbw8 { r: 1, g: 2, b: 3, w: 4 }, Rgbw8 { r: 5, g: 6, b: 7, w: 8 }];
    assert_eq!(ws.write(&frame), Ok(()));
    assert_eq!(ws.last_write_began_at_micros(), 60);
    assert_eq!(ws.write(&frame), Ok(()));
    // Two 32-bit words take 2 * 40 us to drain.
    assert_eq!(ws.last_drained_at_micros(), 60 + 80);
    assert_eq!(ws.last_write_began_at_micros(), 60 + 80 + 60);
    assert_eq!(ws.queued_word(0), frame[0].to_word());
    assert_eq!(ws.queued_word(2), frame[0].to_word());
}

#[test]
fn gated_write_queues_the_same_words_as_the_raw_driver() {
    let frame = vec![Rgb8 { r: 10, g: 20, b: 30 }, Rgb8 { r: 40, g: 50, b: 60 }];
    let mut raw = Ws2812Direct::<Rgb8>::new(48_000_000).unwrap();
    let mut gated = Ws2812::<Rgb8>::new(48_000_000, CountDownTimer::new()).unwrap();
    raw.write(&frame).unwrap();
    gated.write(&frame).unwrap();
    assert_eq!(raw.queued_word_count(), gated.queued_word_count());
    for i in 0..raw.queued_word_count() {
        assert_eq!(raw.queued_word(i), gated.queued_word(i));
    }
}
