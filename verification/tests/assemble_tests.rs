use ws2812_pio::assemble::assemble_led_program;

#[test]
fn assembled_program_encodes_the_bit_cell_loop() {
    let p = assemble_led_program();
    // The four instructions, encoded per the PIO instruction set with one
    // non-optional side-set bit (so a 4-bit delay field):
    //   out x, 1    side 0 [2]   -> 0x6221
    //   jmp !x, 3   side 1 [1]   -> 0x1123
    //   jmp 0       side 1 [4]   -> 0x1400
    //   nop         side 0 [4]   -> 0xA442 (mov y, y)
    assert_eq!(p.code.as_slice(), &[0x6221, 0x1123, 0x1400, 0xA442]);
}

#[test]
fn assembled_program_wraps_from_last_instruction_to_first() {
    let p = assemble_led_program();
    assert_eq!(p.wrap.source, 3);
    assert_eq!(p.wrap.target, 0);
}

#[test]
fn assembled_program_side_set_configuration() {
    let p = assemble_led_program();
    assert_eq!(p.side_set.bits(), 1);
    assert!(!p.side_set.optional());
    assert!(!p.side_set.pindirs());
    assert_eq!(p.origin, None);
}
