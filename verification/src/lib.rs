//! Driver logic for WS2812/SK6812 addressable LED strips driven from a
//! programmable I/O (PIO) block.
//!
//! The crate verifies the logic that decides whether the strip receives a
//! correct bitstream: the micro-program that times each bit cell and its
//! assembly into binary PIO instructions, the fixed-point clock divisor
//! that maps the system clock onto the 800 kHz bit rate, the packing of
//! colors into left-justified 32-bit words that the hardware shifts out
//! most-significant-bit first, and the write protocol that queues those
//! words in order and enforces the inter-frame latch gap.

pub mod assemble;
pub mod color;
pub mod divisor;
pub mod driver;
pub mod program;
