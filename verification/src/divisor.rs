//! Fixed-point clock-divisor computation.
//!
//! The PIO state machine executes the bit-cell micro-program at
//! `800 kHz * CYCLES_PER_BIT` instructions per second. The hardware clock
//! divider is a 16.8 fixed-point register (16-bit integer part, 8-bit
//! fraction), where an integer field of 0 encodes the maximum divisor 65536.
//! This module computes that divisor from the system clock frequency and
//! rejects clocks for which no representable divisor exists.

use vstd::prelude::*;

verus! {

/// Nominal WS2812 bit rate on the wire, in Hertz.
pub const TARGET_BIT_RATE_HZ: u32 = 800_000;

/// State-machine cycles spent per transmitted bit (start + data + stop).
pub const CYCLES_PER_BIT: u32 = 10;

/// Frequency at which the micro-program must execute: one instruction-cycle
/// group of `CYCLES_PER_BIT` per 800 kHz bit.
pub const PROGRAM_CLOCK_HZ: u32 = TARGET_BIT_RATE_HZ * CYCLES_PER_BIT;

/// A fatal configuration error detected while constructing a driver.
///
/// Either the requested divisor falls outside the representable range
/// `[1.0, 65536.0]`, or the peripheral's instruction memory could not accept
/// the micro-program. Neither is recoverable: retrying with the same clock
/// and peripheral would fail identically.
#[derive(Clone, Copy, Debug, PartialEq, Eq, Structural)]
pub enum ConfigError {
    /// `system_clock / PROGRAM_CLOCK_HZ` is not representable as a 16.8
    /// fixed-point divisor in `[1.0, 65536.0]`.
    DivisorOutOfRange,
    /// The peripheral could not install the micro-program.
    ProgramInstall,
}

/// The 16.8 fixed-point clock divisor, as written to the hardware register.
///
/// `int_reg == 0` encodes the maximum integer divisor 65536; every other
/// value encodes itself.
#[derive(Clone, Copy, Debug, PartialEq, Eq, Structural)]
pub struct ClockDivisor {
    /// Integer part as encoded in the register (0 stands for 65536).
    pub int_reg: u16,
    /// 8-bit fractional part, in units of 1/256.
    pub frac: u8,
}

impl ClockDivisor {
    /// The integer part this register value denotes.
    pub open spec fn int_value(self) -> int {
        if self.int_reg == 0 {
            65536
        } else {
            self.int_reg as int
        }
    }

    /// The denoted divisor, scaled by 256 so it stays an integer:
    /// `int_value * 256 + frac`.
    pub open spec fn scaled_by_256(self) -> int {
        self.int_value() * 256 + self.frac
    }
}

/// Computes the 16.8 fixed-point divisor that runs the micro-program as
/// close to `PROGRAM_CLOCK_HZ` as the hardware can represent, rounding the
/// fraction down.
///
/// Succeeds exactly when the integer quotient `system_clock_hz /
/// PROGRAM_CLOCK_HZ` lies in `[1, 65536]` (for a 32-bit clock value the
/// quotient never exceeds 536, so only clocks below `PROGRAM_CLOCK_HZ` are
/// rejected); the returned parts are the floor of the quotient and the floor
/// of the remainder scaled to 1/256ths.
pub fn clock_divisor(system_clock_hz: u32) -> (r: Result<ClockDivisor, ConfigError>)
    ensures
        match r {
            Ok(d) => {
                &&& system_clock_hz >= PROGRAM_CLOCK_HZ
                &&& d.int_value() == system_clock_hz as int / PROGRAM_CLOCK_HZ as int
                &&& d.frac as int == (system_clock_hz as int % PROGRAM_CLOCK_HZ as int) * 256
                    / PROGRAM_CLOCK_HZ as int
            },
            Err(e) => {
                &&& e == ConfigError::DivisorOutOfRange
                &&& system_clock_hz < PROGRAM_CLOCK_HZ
            },
        },
{
    let int_part: u32 = system_clock_hz / PROGRAM_CLOCK_HZ;
    let rem: u32 = system_clock_hz - int_part * PROGRAM_CLOCK_HZ;
    proof {
        assert(system_clock_hz as int % PROGRAM_CLOCK_HZ as int
            == system_clock_hz - (system_clock_hz as int / PROGRAM_CLOCK_HZ as int)
                * PROGRAM_CLOCK_HZ) by (nonlinear_arith);
        assert(int_part * PROGRAM_CLOCK_HZ <= system_clock_hz) by (nonlinear_arith)
            requires
                int_part == system_clock_hz as int / PROGRAM_CLOCK_HZ as int,
        ;
        assert(rem < PROGRAM_CLOCK_HZ);
    }
    let frac: u32 = (rem * 256) / PROGRAM_CLOCK_HZ;
    assert(frac < 256) by (nonlinear_arith)
        requires
            frac == rem * 256 / (PROGRAM_CLOCK_HZ as int),
            rem < PROGRAM_CLOCK_HZ,
    ;
    proof {
        assert(int_part < 65536) by (nonlinear_arith)
            requires
                int_part == system_clock_hz as int / PROGRAM_CLOCK_HZ as int,
                system_clock_hz <= u32::MAX,
        ;
    }
    if !(1 <= int_part && int_part <= 65536) || (int_part == 65536 && frac != 0) {
        return Err(ConfigError::DivisorOutOfRange);
    }
    // 65536 is encoded as 0 in the hardware register; for a 32-bit clock the
    // quotient stays far below it, but the register convention is kept.
    let int_reg: u16 = if int_part == 65536 { 0 } else { int_part as u16 };
    Ok(ClockDivisor { int_reg, frac: frac as u8 })
}

/// The computed divisor is the best 1/256-granular approximation from below:
/// its value scaled by 256 equals `floor(system_clock_hz * 256 /
/// PROGRAM_CLOCK_HZ)`, so the achieved program clock never runs slow by a
/// full 1/256 step.
pub proof fn lemma_divisor_is_floor_of_scaled_quotient(system_clock_hz: u32, d: ClockDivisor)
    requires
        d.int_value() == system_clock_hz as int / PROGRAM_CLOCK_HZ as int,
        d.frac as int == (system_clock_hz as int % PROGRAM_CLOCK_HZ as int) * 256
            / PROGRAM_CLOCK_HZ as int,
    ensures
        d.scaled_by_256() == system_clock_hz as int * 256 / PROGRAM_CLOCK_HZ as int,
{
    let c = system_clock_hz as int;
    let f = PROGRAM_CLOCK_HZ as int;
    let q = c / f;
    let r = c % f;
    vstd::arithmetic::div_mod::lemma_fundamental_div_mod(c, f);
    vstd::arithmetic::div_mod::lemma_mod_bound(c, f);
    assert(c == f * q + r && 0 <= r < f);
    assert(c * 256 == f * (q * 256) + r * 256) by (nonlinear_arith)
        requires
            c == f * q + r,
    ;
    assert(r * 256 / f < 256 && 0 <= r * 256 / f) by (nonlinear_arith)
        requires
            0 <= r < f,
            f > 0,
    ;
    assert(c * 256 / f == q * 256 + r * 256 / f) by (nonlinear_arith)
        requires
            c * 256 == f * (q * 256) + r * 256,
            0 <= r * 256,
            f > 0,
    ;
    vstd::arithmetic::div_mod::lemma_fundamental_div_mod(r * 256, f);
    assert(r * 256 == f * (r * 256 / f) + (r * 256) % f);
}

} // verus!
