//! Synthesis of the bit-cell micro-program.
//!
//! The program is a four-instruction loop that the state machine runs once
//! per transmitted bit. Each instruction occupies one cycle plus a delay,
//! and carries a side-set value that drives the output pin directly, so the
//! host never touches per-bit timing. With `T1 = 2` (start), `T2 = 5`
//! (data) and `T3 = 3` (stop) cycles, a "1" bit holds the line high for
//! `T1 + T2` cycles and a "0" bit for `T1` cycles, each followed by the
//! fixed `T3`-cycle low gap — the three-phase WS2812 bit cell.

use vstd::prelude::*;

verus! {

/// Cycles of the start phase (line high for both bit values).
pub const T1_CYCLES: u8 = 2;

/// Cycles of the data phase (line high only for a "1" bit).
pub const T2_CYCLES: u8 = 5;

/// Cycles of the stop phase (line low for both bit values).
pub const T3_CYCLES: u8 = 3;

/// Branch condition of a jump instruction, as the hardware decodes it.
#[derive(Clone, Copy, Debug, PartialEq, Eq, Structural)]
pub enum JumpCondition {
    /// Taken when the scratch register X holds zero.
    XIsZero,
    /// Always taken.
    Always,
}

/// One instruction of the micro-program, reduced to the forms the program
/// uses. Every instruction executes in `1 + delay` cycles and asserts
/// `side` on the output pin for that whole duration.
#[derive(Clone, Copy, Debug, PartialEq, Eq, Structural)]
pub enum ProgramOp {
    /// Shift one bit (`bit_count` bits) from the output shift register into
    /// the scratch register X.
    OutToX { bit_count: u8, delay: u8, side: u8 },
    /// Branch to the instruction at `target` when `condition` holds.
    Jump { condition: JumpCondition, target: u8, delay: u8, side: u8 },
    /// Do nothing but burn the cycles.
    Nop { delay: u8, side: u8 },
}

impl ProgramOp {
    /// Cycles this instruction occupies: one to execute plus its delay.
    pub open spec fn cycles(self) -> int {
        match self {
            ProgramOp::OutToX { bit_count, delay, side } => 1 + delay,
            ProgramOp::Jump { condition, target, delay, side } => 1 + delay,
            ProgramOp::Nop { delay, side } => 1 + delay,
        }
    }

    /// The instruction's delay field: extra cycles after the one it takes.
    pub open spec fn delay_value(self) -> u8 {
        match self {
            ProgramOp::OutToX { bit_count, delay, side } => delay,
            ProgramOp::Jump { condition, target, delay, side } => delay,
            ProgramOp::Nop { delay, side } => delay,
        }
    }

    /// The side-set value the instruction drives onto the output pin.
    pub open spec fn side(self) -> u8 {
        match self {
            ProgramOp::OutToX { bit_count, delay, side } => side,
            ProgramOp::Jump { condition, target, delay, side } => side,
            ProgramOp::Nop { delay, side } => side,
        }
    }

    /// Cycles during which the instruction holds the line high.
    pub open spec fn high_cycles(self) -> int {
        if self.side() == 1 {
            self.cycles()
        } else {
            0
        }
    }
}

/// The synthesized micro-program together with its wrap points and side-set
/// configuration, ready to be assembled and installed into the peripheral's
/// instruction memory once per driver.
#[derive(Debug, PartialEq, Eq)]
pub struct LedProgram {
    /// The instructions, in instruction-memory order.
    pub ops: Vec<ProgramOp>,
    /// Index execution wraps back to: the start of the bit-cell loop.
    pub wrap_target: u8,
    /// Index after whose instruction execution wraps; equal to the program
    /// length, i.e. the wrap sits after the last instruction.
    pub wrap_source: u8,
    /// Number of side-set bits each instruction carries.
    pub side_set_bits: u8,
    /// Whether the side-set is optional per instruction (it is not: every
    /// instruction drives the pin).
    pub side_set_optional: bool,
    /// Whether the side-set drives pin directions instead of pin levels.
    pub side_set_pindirs: bool,
}

/// The canonical instruction sequence of the bit-cell loop.
///
/// Index 0 shifts the next data bit into X while holding the line low for
/// the `T3`-cycle stop gap of the previous bit; index 1 raises the line for
/// the `T1`-cycle start phase and branches to index 3 when the bit is zero;
/// index 2 keeps the line high through the `T2`-cycle data phase of a "1"
/// and wraps; index 3 holds the line low through the data phase of a "0".
pub open spec fn spec_led_ops() -> Seq<ProgramOp> {
    seq![
        ProgramOp::OutToX { bit_count: 1, delay: (T3_CYCLES - 1) as u8, side: 0 },
        ProgramOp::Jump {
            condition: JumpCondition::XIsZero,
            target: 3,
            delay: (T1_CYCLES - 1) as u8,
            side: 1,
        },
        ProgramOp::Jump {
            condition: JumpCondition::Always,
            target: 0,
            delay: (T2_CYCLES - 1) as u8,
            side: 1,
        },
        ProgramOp::Nop { delay: (T2_CYCLES - 1) as u8, side: 0 },
    ]
}

/// Builds the micro-program: the four-instruction bit-cell loop, wrapping
/// from after the last instruction back to the first, with one mandatory
/// level-driving side-set bit.
pub fn led_program() -> (p: LedProgram)
    ensures
        p.ops@ =~= spec_led_ops(),
        p.wrap_target == 0,
        p.wrap_source == 4,
        p.side_set_bits == 1,
        !p.side_set_optional,
        !p.side_set_pindirs,
{
    let mut ops: Vec<ProgramOp> = Vec::new();
    // Stop gap of the previous bit, then fetch the next data bit.
    ops.push(ProgramOp::OutToX { bit_count: 1, delay: T3_CYCLES - 1, side: 0 });
    // Start phase, line high; a zero bit branches to the low data phase.
    ops.push(
        ProgramOp::Jump {
            condition: JumpCondition::XIsZero,
            target: 3,
            delay: T1_CYCLES - 1,
            side: 1,
        },
    );
    // Data phase of a "1": line stays high, then wrap to the next bit.
    ops.push(
        ProgramOp::Jump {
            condition: JumpCondition::Always,
            target: 0,
            delay: T2_CYCLES - 1,
            side: 1,
        },
    );
    // Data phase of a "0": line low until the wrap.
    ops.push(ProgramOp::Nop { delay: T2_CYCLES - 1, side: 0 });
    LedProgram {
        ops,
        wrap_target: 0,
        wrap_source: 4,
        side_set_bits: 1,
        side_set_optional: false,
        side_set_pindirs: false,
    }
}

/// Both paths through the bit-cell loop take exactly `T1 + T2 + T3` cycles,
/// and the line is high for `T1 + T2` cycles when the shifted bit is one
/// (indices 0, 1, 2) but only `T1` cycles when it is zero (indices 0, 1,
/// 3): the program meets the protocol's bit-cell timing for every bit
/// value at the configured program clock.
pub proof fn lemma_bit_cell_timing()
    ensures
        spec_led_ops()[0].cycles() + spec_led_ops()[1].cycles() + spec_led_ops()[2].cycles()
            == T1_CYCLES + T2_CYCLES + T3_CYCLES,
        spec_led_ops()[0].cycles() + spec_led_ops()[1].cycles() + spec_led_ops()[3].cycles()
            == T1_CYCLES + T2_CYCLES + T3_CYCLES,
        spec_led_ops()[0].high_cycles() + spec_led_ops()[1].high_cycles()
            + spec_led_ops()[2].high_cycles() == T1_CYCLES + T2_CYCLES,
        spec_led_ops()[0].high_cycles() + spec_led_ops()[1].high_cycles()
            + spec_led_ops()[3].high_cycles() == T1_CYCLES,
        T1_CYCLES + T2_CYCLES + T3_CYCLES == crate::divisor::CYCLES_PER_BIT,
{
}

/// Every jump in the program lands inside it, so installed execution
/// never leaves the program.
pub proof fn lemma_program_self_contained()
    ensures
        forall|i: int|
            0 <= i < spec_led_ops().len() ==> match #[trigger] spec_led_ops()[i] {
                ProgramOp::Jump { condition, target, delay, side } => 0 <= target
                    < spec_led_ops().len(),
                _ => true,
            },
{
}

} // verus!
