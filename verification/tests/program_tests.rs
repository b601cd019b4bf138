use ws2812_pio::program::led_program;
use ws2812_pio::program::JumpCondition;
use ws2812_pio::program::ProgramOp;

#[test]
fn program_has_the_four_instruction_bit_cell_loop() {
    let p = led_program();
    assert_eq!(p.ops.len(), 4);
    // Stop gap + fetch: out 1 bit to X, delay T3-1 = 2, line low.
    assert_eq!(
        p.ops[0],
        ProgramOp::OutToX { bit_count: 1, delay: 2, side: 0 }
    );
    // Start phase: jump to the zero path, delay T1-1 = 1, line high.
    assert_eq!(
        p.ops[1],
        ProgramOp::Jump { condition: JumpCondition::XIsZero, target: 3, delay: 1, side: 1 }
    );
    // Data "1": jump back to the top, delay T2-1 = 4, line high.
    assert_eq!(
        p.ops[2],
        ProgramOp::Jump { condition: JumpCondition::Always, target: 0, delay: 4, side: 1 }
    );
    // Data "0": nop, delay T2-1 = 4, line low.
    assert_eq!(p.ops[3], ProgramOp::Nop { delay: 4, side: 0 });
}

#[test]
fn program_wraps_from_end_to_start() {
    let p = led_program();
    assert_eq!(p.wrap_target, 0);
    assert_eq!(p.wrap_source, 4);
}

#[test]
fn program_side_set_is_one_mandatory_level_bit() {
    let p = led_program();
    assert_eq!(p.side_set_bits, 1);
    assert!(!p.side_set_optional);
    assert!(!p.side_set_pindirs);
}
