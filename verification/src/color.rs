//! Pixel color formats and their packing into wire words.
//!
//! The hardware shifts each queued 32-bit word out most-significant-bit
//! first, pulling a fresh word once `ColorBytes::num_bits` bits have gone
//! out. A color is therefore packed left-justified with the byte layout
//! `{G:31..24, R:23..16, B:15..8, W-or-0:7..0}`; the 3-byte format leaves
//! the low byte zero and relies on the 24-bit pull threshold to discard it.

use vstd::prelude::*;

verus! {

/// Whether a pixel occupies 3 or 4 bytes on the wire.
#[derive(Clone, Copy, Debug, PartialEq, Eq, Structural)]
pub enum ColorBytes {
    ThreeBytes,
    FourBytes,
}

impl ColorBytes {
    /// Bits per pixel: the shift register's pull threshold.
    pub open spec fn spec_num_bits(self) -> u8 {
        match self {
            ColorBytes::ThreeBytes => 24,
            ColorBytes::FourBytes => 32,
        }
    }

    /// Select the number of bits the shift register accumulates per pixel.
    pub fn num_bits(&self) -> (n: u8)
        ensures
            n == self.spec_num_bits(),
    {
        match self {
            ColorBytes::ThreeBytes => 24,
            ColorBytes::FourBytes => 32,
        }
    }
}

/// A 3-channel, 8-bit-per-channel color.
#[derive(Clone, Copy, Debug, PartialEq, Eq, Structural)]
pub struct Rgb8 {
    pub r: u8,
    pub g: u8,
    pub b: u8,
}

/// A 4-channel color: RGB plus a white channel.
#[derive(Clone, Copy, Debug, PartialEq, Eq, Structural)]
pub struct Rgbw8 {
    pub r: u8,
    pub g: u8,
    pub b: u8,
    pub w: u8,
}

/// A color format the driver can transmit.
///
/// Implement this to support a user-defined color representation: give the
/// per-pixel byte count (which fixes the shift register's pull threshold)
/// and the packing of one color into a left-justified 32-bit wire word.
pub trait ColorFormat: Sized {
    /// The wire word this color packs into.
    spec fn word_spec(self) -> u32;

    /// The per-pixel byte count of this format.
    spec fn bytes_spec() -> ColorBytes;

    /// Map the color to its 32-bit wire word.
    fn to_word(&self) -> (w: u32)
        ensures
            w == self.word_spec(),
    ;

    /// Select the number of bytes per pixel.
    fn color_bytes() -> (cb: ColorBytes)
        ensures
            cb == Self::bytes_spec(),
    ;
}

impl ColorFormat for Rgb8 {
    open spec fn word_spec(self) -> u32 {
        ((self.g as u32) << 24) | ((self.r as u32) << 16) | ((self.b as u32) << 8)
    }

    open spec fn bytes_spec() -> ColorBytes {
        ColorBytes::ThreeBytes
    }

    fn to_word(&self) -> (w: u32)
        ensures
            w == self.word_spec(),
    {
        ((self.g as u32) << 24) | ((self.r as u32) << 16) | ((self.b as u32) << 8)
    }

    fn color_bytes() -> (cb: ColorBytes)
        ensures
            cb == Self::bytes_spec(),
    {
        ColorBytes::ThreeBytes
    }
}

impl ColorFormat for Rgbw8 {
    open spec fn word_spec(self) -> u32 {
        ((self.g as u32) << 24) | ((self.r as u32) << 16) | ((self.b as u32) << 8) | (
        self.w as u32)
    }

    open spec fn bytes_spec() -> ColorBytes {
        ColorBytes::FourBytes
    }

    fn to_word(&self) -> (w: u32)
        ensures
            w == self.word_spec(),
    {
        ((self.g as u32) << 24) | ((self.r as u32) << 16) | ((self.b as u32) << 8) | (self.w
            as u32)
    }

    fn color_bytes() -> (cb: ColorBytes)
        ensures
            cb == Self::bytes_spec(),
    {
        ColorBytes::FourBytes
    }
}

/// Every byte of a packed 3-byte word is the stated channel: green in bits
/// 31..24, red in 23..16, blue in 15..8, and the low byte — which the 24-bit
/// pull threshold discards — is always zero.
pub proof fn lemma_rgb_word_channels(c: Rgb8)
    ensures
        (c.word_spec() >> 24) & 0xff == c.g,
        (c.word_spec() >> 16) & 0xff == c.r,
        (c.word_spec() >> 8) & 0xff == c.b,
        c.word_spec() & 0xff == 0,
{
    let g = c.g;
    let r = c.r;
    let b = c.b;
    let w = ((g as u32) << 24) | ((r as u32) << 16) | ((b as u32) << 8);
    assert((w >> 24) & 0xff == g && (w >> 16) & 0xff == r && (w >> 8) & 0xff == b && w & 0xff
        == 0) by (bit_vector)
        requires
            w == ((g as u32) << 24) | ((r as u32) << 16) | ((b as u32) << 8),
    ;
}

/// Every byte of a packed 4-byte word is the stated channel: green in bits
/// 31..24, red in 23..16, blue in 15..8, white in 7..0.
pub proof fn lemma_rgbw_word_channels(c: Rgbw8)
    ensures
        (c.word_spec() >> 24) & 0xff == c.g,
        (c.word_spec() >> 16) & 0xff == c.r,
        (c.word_spec() >> 8) & 0xff == c.b,
        c.word_spec() & 0xff == c.w,
{
    let g = c.g;
    let r = c.r;
    let b = c.b;
    let wh = c.w;
    let w = ((g as u32) << 24) | ((r as u32) << 16) | ((b as u32) << 8) | (wh as u32);
    assert((w >> 24) & 0xff == g && (w >> 16) & 0xff == r && (w >> 8) & 0xff == b && w & 0xff
        == wh) by (bit_vector)
        requires
            w == ((g as u32) << 24) | ((r as u32) << 16) | ((b as u32) << 8) | (wh as u32),
    ;
}

/// Packing is injective per format: two 3-byte colors that pack to the same
/// word are the same color, so no information is lost on the wire.
pub proof fn lemma_rgb_word_injective(c1: Rgb8, c2: Rgb8)
    requires
        c1.word_spec() == c2.word_spec(),
    ensures
        c1 == c2,
{
    lemma_rgb_word_channels(c1);
    lemma_rgb_word_channels(c2);
}

/// Packing is injective per format: two 4-byte colors that pack to the same
/// word are the same color.
pub proof fn lemma_rgbw_word_injective(c1: Rgbw8, c2: Rgbw8)
    requires
        c1.word_spec() == c2.word_spec(),
    ensures
        c1 == c2,
{
    lemma_rgbw_word_channels(c1);
    lemma_rgbw_word_channels(c2);
}

} // verus!
