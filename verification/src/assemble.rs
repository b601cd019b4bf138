//! Assembly of the micro-program into PIO instruction encodings.
//!
//! The pio crate's assembler turns the synthesized [`LedProgram`] into the
//! binary program the peripheral's instruction memory takes. The assembler
//! is an instruction collection of an outside crate: its contents are
//! tracked here through the uninterpreted [`asm_ops`] view, against which
//! each emitting call is specified, so the emission loop is verified to
//! build exactly the synthesized instruction sequence and to respect every
//! limit — program capacity, delay-field width, side-set range and wrap
//! bounds — whose violation the assembler punishes with a panic.

use vstd::prelude::*;

use crate::program::led_program;
use crate::program::JumpCondition;
use crate::program::ProgramOp;

verus! {

#[verifier::external_type_specification]
#[verifier::external_body]
pub struct ExAssembler<const PROGRAM_SIZE: usize>(pio::Assembler<PROGRAM_SIZE>);

#[verifier::external_type_specification]
#[verifier::external_body]
pub struct ExProgram<const PROGRAM_SIZE: usize>(pio::Program<PROGRAM_SIZE>);

/// The instructions an assembler holds so far, in emission order, read as
/// the micro-program model they were emitted from.
pub uninterp spec fn asm_ops(a: pio::Assembler<32>) -> Seq<ProgramOp>;

/// The side-set bit count the assembler was configured with, which fixes
/// the width left for each instruction's delay field.
pub uninterp spec fn asm_side_bits(a: pio::Assembler<32>) -> u8;

/// The instruction sequence a binary program encodes, read as the
/// micro-program model it was assembled from.
pub uninterp spec fn program_ops(p: pio::Program<32>) -> Seq<ProgramOp>;

/// The instruction index after whose instruction the binary program wraps
/// back, as recorded in its wrap registers: the last index of the loop.
pub uninterp spec fn program_wrap_source(p: pio::Program<32>) -> u8;

/// The instruction index the binary program wraps back to.
pub uninterp spec fn program_wrap_target(p: pio::Program<32>) -> u8;

/// Relies on pio::SideSet::new and pio::Assembler::new_with_side_set: a
/// fresh assembler holds no instructions and keeps the side-set
/// configuration; with a non-optional side-set the stored bit count is
/// exactly `bits`.
#[verifier::external_body]
fn asm_new(bits: u8, pindirs: bool) -> (a: pio::Assembler<32>)
    requires
        bits <= 5,
    ensures
        asm_ops(a) =~= Seq::<ProgramOp>::empty(),
        asm_side_bits(a) == bits,
{
    pio::Assembler::new_with_side_set(pio::SideSet::new(false, bits, pindirs))
}

/// Relies on pio::Assembler::out_with_delay_and_side_set: appends one OUT
/// instruction, shifting `bit_count` bits to the scratch register X, with
/// the given delay and side-set fields.
#[verifier::external_body]
fn asm_out_x(a: &mut pio::Assembler<32>, bit_count: u8, delay: u8, side: u8)
    requires
        asm_ops(*old(a)).len() < 32,
    ensures
        asm_ops(*final(a)) =~= asm_ops(*old(a)).push(
            ProgramOp::OutToX { bit_count, delay, side },
        ),
        asm_side_bits(*final(a)) == asm_side_bits(*old(a)),
{
    a.out_with_delay_and_side_set(pio::OutDestination::X, bit_count, delay, side)
}

/// Relies on pio::Assembler::jmp_with_delay_and_side_set, called with a
/// label already bound at `target` (built by pio::Assembler::
/// label_at_offset): appends one JMP instruction to that address, with the
/// given condition, delay and side-set fields.
#[verifier::external_body]
fn asm_jmp(a: &mut pio::Assembler<32>, condition: JumpCondition, target: u8, delay: u8, side: u8)
    requires
        asm_ops(*old(a)).len() < 32,
    ensures
        asm_ops(*final(a)) =~= asm_ops(*old(a)).push(
            ProgramOp::Jump { condition, target, delay, side },
        ),
        asm_side_bits(*final(a)) == asm_side_bits(*old(a)),
{
    let cond = match condition {
        JumpCondition::XIsZero => pio::JmpCondition::XIsZero,
        JumpCondition::Always => pio::JmpCondition::Always,
    };
    let mut label = a.label_at_offset(target);
    a.jmp_with_delay_and_side_set(cond, &mut label, delay, side)
}

/// Relies on pio::Assembler::nop_with_delay_and_side_set: appends one NOP
/// (a side-effect-free MOV) with the given delay and side-set fields.
#[verifier::external_body]
fn asm_nop(a: &mut pio::Assembler<32>, delay: u8, side: u8)
    requires
        asm_ops(*old(a)).len() < 32,
    ensures
        asm_ops(*final(a)) =~= asm_ops(*old(a)).push(ProgramOp::Nop { delay, side }),
        asm_side_bits(*final(a)) == asm_side_bits(*old(a)),
{
    a.nop_with_delay_and_side_set(delay, side)
}

/// Relies on pio::Assembler::assemble_with_wrap, with both wrap labels
/// built by pio::Assembler::label_at_offset: encodes every held
/// instruction, one encoding per instruction in emission order, and
/// records the wrap from after instruction `wrap_source - 1` back to
/// `wrap_target`. The requires exclude the panics its source shows: an
/// empty program, a wrap offset outside the program, a delay that
/// overflows the field left beside the side-set bits, and a side-set
/// value wider than the configured bits. Every instruction carries a
/// side-set value, since each emitting wrapper of this module sets one.
/// The encoder keeps five bits for a jump address and an OUT bit count,
/// so the contents claim holds only while every jump target and bit count
/// fits those five bits; the requires demand it.
#[verifier::external_body]
fn asm_assemble_with_wrap(a: pio::Assembler<32>, wrap_source: u8, wrap_target: u8) -> (p:
    pio::Program<32>)
    requires
        1 <= asm_ops(a).len() <= 32,
        1 <= wrap_source <= asm_ops(a).len(),
        wrap_target < asm_ops(a).len(),
        asm_side_bits(a) <= 5,
        forall|i: int|
            0 <= i < asm_ops(a).len() ==> #[trigger] asm_ops(a)[i].delay_value() < (1u32 << (
            5 - asm_side_bits(a))),
        forall|i: int|
            0 <= i < asm_ops(a).len() ==> #[trigger] asm_ops(a)[i].side() < (1u32
                << asm_side_bits(a)),
        forall|i: int|
            0 <= i < asm_ops(a).len() ==> match #[trigger] asm_ops(a)[i] {
                ProgramOp::OutToX { bit_count, delay, side } => bit_count < 32,
                ProgramOp::Jump { condition, target, delay, side } => target < 32,
                ProgramOp::Nop { delay, side } => true,
            },
    ensures
        program_ops(p) =~= asm_ops(a),
        program_wrap_source(p) == wrap_source - 1,
        program_wrap_target(p) == wrap_target,
{
    let mut a = a;
    let source = a.label_at_offset(wrap_source);
    let target = a.label_at_offset(wrap_target);
    a.assemble_with_wrap(source, target)
}

/// Synthesizes the bit-cell micro-program and assembles it into the binary
/// form the peripheral's instruction memory takes: the four instructions
/// of [`crate::program::spec_led_ops`] in order, wrapping from after the
/// last back to the first, each carrying its one side-set bit.
pub fn assemble_led_program() -> (p: pio::Program<32>)
    ensures
        program_ops(p) =~= crate::program::spec_led_ops(),
        program_wrap_source(p) == crate::program::spec_led_ops().len() - 1,
        program_wrap_target(p) == 0,
{
    let program = led_program();
    let mut a = asm_new(program.side_set_bits, program.side_set_pindirs);
    let ghost all_ops = program.ops@;
    let mut i: usize = 0;
    while i < program.ops.len()
        invariant
            i <= program.ops@.len(),
            program.ops@ =~= all_ops,
            all_ops =~= crate::program::spec_led_ops(),
            asm_ops(a) =~= all_ops.take(i as int),
            asm_side_bits(a) == 1,
        decreases program.ops@.len() - i,
    {
        match program.ops[i] {
            ProgramOp::OutToX { bit_count, delay, side } => {
                asm_out_x(&mut a, bit_count, delay, side);
            },
            ProgramOp::Jump { condition, target, delay, side } => {
                asm_jmp(&mut a, condition, target, delay, side);
            },
            ProgramOp::Nop { delay, side } => {
                asm_nop(&mut a, delay, side);
            },
        }
        i = i + 1;
    }
    assert(asm_ops(a) =~= crate::program::spec_led_ops());
    proof {
        assert(1u32 << 4u8 == 16) by (bit_vector);
        assert(1u32 << 1u8 == 2) by (bit_vector);
        assert forall|i: int| 0 <= i < asm_ops(a).len() implies #[trigger] asm_ops(
            a,
        )[i].delay_value() < (1u32 << (5 - asm_side_bits(a))) by {
            assert(asm_ops(a)[i] == crate::program::spec_led_ops()[i]);
        }
        assert forall|i: int| 0 <= i < asm_ops(a).len() implies #[trigger] asm_ops(a)[i].side()
            < (1u32 << asm_side_bits(a)) by {
            assert(asm_ops(a)[i] == crate::program::spec_led_ops()[i]);
        }
        assert forall|i: int| 0 <= i < asm_ops(a).len() implies match #[trigger] asm_ops(
            a,
        )[i] {
            ProgramOp::OutToX { bit_count, delay, side } => bit_count < 32,
            ProgramOp::Jump { condition, target, delay, side } => target < 32,
            ProgramOp::Nop { delay, side } => true,
        } by {
            assert(asm_ops(a)[i] == crate::program::spec_led_ops()[i]);
        }
    }
    asm_assemble_with_wrap(a, program.wrap_source, program.wrap_target)
}

} // verus!
