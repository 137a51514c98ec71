//! Color values at three integer precisions — 8, 10 and 12 bits per
//! channel, each with and without an alpha channel — together with the
//! conversions between them and saturating arithmetic on the 8-bit type.
//!
//! Channel ranges above 8 bits are a caller contract: a 10-bit channel is
//! conceptually 0–1023 and a 12-bit channel 0–4095, but the constructors do
//! not validate them. Narrowing to 8 bits is a linear rescale with
//! truncating division, clamped to the 8-bit range, so an out-of-range
//! channel still yields a well-defined result.

use vstd::prelude::*;

verus! {

/// The value of one channel after a linear rescale from the range
/// `0..=max` down to `0..=255`: truncating division, clamped to 255.
pub open spec fn narrowed_channel(v: int, max: int) -> int {
    if v * 255 / max > 255 {
        255
    } else {
        v * 255 / max
    }
}

/// The value of one 8-bit channel after a saturating add: the sum,
/// clamped to 255.
pub open spec fn saturated_add(a: int, b: int) -> int {
    if a + b > 255 {
        255
    } else {
        a + b
    }
}

/// The value of one 8-bit channel after a saturating subtract: the
/// difference, clamped to 0.
pub open spec fn saturated_sub(a: int, b: int) -> int {
    if a - b < 0 {
        0
    } else {
        a - b
    }
}

/// Rescales one channel from the range `0..=max` down to `0..=255`.
fn narrow_channel(v: u16, max: u16) -> (r: u8)
    requires
        max > 0,
    ensures
        r == narrowed_channel(v as int, max as int),
{
    let wide: u32 = v as u32 * 255 / max as u32;
    if wide > 255 {
        255
    } else {
        wide as u8
    }
}

/// An opaque color with 8 bits per channel.
#[derive(Debug, Clone, Copy, PartialEq, Eq, Structural)]
pub struct Color8Bit {
    pub r: u8,
    pub g: u8,
    pub b: u8,
}

/// The short name for the crate's default color type.
pub type Color = Color8Bit;

impl Color8Bit {
    /// Builds an opaque 8-bit color from its channels.
    pub fn rgb(r: u8, g: u8, b: u8) -> (c: Self)
        ensures
            c == (Color8Bit { r, g, b }),
    {
        Color8Bit { r, g, b }
    }

    /// Builds an 8-bit color with an alpha channel.
    pub fn rgba(r: u8, g: u8, b: u8, a: u8) -> (c: Color8BitA)
        ensures
            c == (Color8BitA { r, g, b, a }),
    {
        Color8BitA { r, g, b, a }
    }

    /// Adds two colors channel by channel, clamping each sum to 255
    /// instead of wrapping around.
    pub fn add(self, other: Self) -> (c: Self)
        ensures
            c.r == saturated_add(self.r as int, other.r as int),
            c.g == saturated_add(self.g as int, other.g as int),
            c.b == saturated_add(self.b as int, other.b as int),
    {
        Color8Bit {
            r: add_channel(self.r, other.r),
            g: add_channel(self.g, other.g),
            b: add_channel(self.b, other.b),
        }
    }

    /// Subtracts a color channel by channel, clamping each difference
    /// to 0 instead of wrapping around.
    pub fn sub(self, other: Self) -> (c: Self)
        ensures
            c.r == saturated_sub(self.r as int, other.r as int),
            c.g == saturated_sub(self.g as int, other.g as int),
            c.b == saturated_sub(self.b as int, other.b as int),
    {
        Color8Bit {
            r: sub_channel(self.r, other.r),
            g: sub_channel(self.g, other.g),
            b: sub_channel(self.b, other.b),
        }
    }
}

/// Adds two 8-bit channels, clamping the sum to 255.
fn add_channel(a: u8, b: u8) -> (r: u8)
    ensures
        r == saturated_add(a as int, b as int),
{
    let sum: u16 = a as u16 + b as u16;
    if sum > 255 {
        255
    } else {
        sum as u8
    }
}

/// Subtracts one 8-bit channel from another, clamping the difference to 0.
fn sub_channel(a: u8, b: u8) -> (r: u8)
    ensures
        r == saturated_sub(a as int, b as int),
{
    if a >= b {
        a - b
    } else {
        0
    }
}

/// An 8-bit color with an alpha channel.
#[derive(Debug, Clone, Copy, PartialEq, Eq, Structural)]
pub struct Color8BitA {
    pub r: u8,
    pub g: u8,
    pub b: u8,
    pub a: u8,
}

impl Color8BitA {
    /// Builds an 8-bit color with an alpha channel.
    pub fn rgba(r: u8, g: u8, b: u8, a: u8) -> (c: Self)
        ensures
            c == (Color8BitA { r, g, b, a }),
    {
        Color8BitA { r, g, b, a }
    }

    /// Drops the alpha channel.
    pub fn as_rgb(&self) -> (c: Color8Bit)
        ensures
            c == (Color8Bit { r: self.r, g: self.g, b: self.b }),
    {
        Color8Bit { r: self.r, g: self.g, b: self.b }
    }
}

/// An opaque color with 10 bits per channel, stored in 16-bit words.
/// Channels are conceptually limited to 0–1023; the range is a caller
/// contract, not validated here.
#[derive(Debug, Clone, Copy, PartialEq, Eq, Structural)]
pub struct Color10Bit {
    pub r: u16,
    pub g: u16,
    pub b: u16,
}

impl Color10Bit {
    /// Builds an opaque 10-bit color from its channels.
    pub fn rgb(r: u16, g: u16, b: u16) -> (c: Self)
        ensures
            c == (Color10Bit { r, g, b }),
    {
        Color10Bit { r, g, b }
    }

    /// Builds a 10-bit color with an alpha channel.
    pub fn rgba(r: u16, g: u16, b: u16, a: u16) -> (c: Color10BitA)
        ensures
            c == (Color10BitA { r, g, b, a }),
    {
        Color10BitA { r, g, b, a }
    }

    /// Narrows each channel from 10 bits to 8 by a linear rescale.
    pub fn as_8bit(&self) -> (c: Color8Bit)
        ensures
            c.r == narrowed_channel(self.r as int, 1023),
            c.g == narrowed_channel(self.g as int, 1023),
            c.b == narrowed_channel(self.b as int, 1023),
    {
        Color8Bit {
            r: narrow_channel(self.r, 1023),
            g: narrow_channel(self.g, 1023),
            b: narrow_channel(self.b, 1023),
        }
    }
}

/// A 10-bit color with an alpha channel, stored in 16-bit words.
#[derive(Debug, Clone, Copy, PartialEq, Eq, Structural)]
pub struct Color10BitA {
    pub r: u16,
    pub g: u16,
    pub b: u16,
    pub a: u16,
}

impl Color10BitA {
    /// Builds a 10-bit color with an alpha channel.
    pub fn rgba(r: u16, g: u16, b: u16, a: u16) -> (c: Self)
        ensures
            c == (Color10BitA { r, g, b, a }),
    {
        Color10BitA { r, g, b, a }
    }

    /// Drops the alpha channel.
    pub fn as_rgb(&self) -> (c: Color10Bit)
        ensures
            c == (Color10Bit { r: self.r, g: self.g, b: self.b }),
    {
        Color10Bit { r: self.r, g: self.g, b: self.b }
    }

    /// Narrows each channel, alpha included, from 10 bits to 8 by a
    /// linear rescale.
    pub fn as_8bit(&self) -> (c: Color8BitA)
        ensures
            c.r == narrowed_channel(self.r as int, 1023),
            c.g == narrowed_channel(self.g as int, 1023),
            c.b == narrowed_channel(self.b as int, 1023),
            c.a == narrowed_channel(self.a as int, 1023),
    {
        Color8BitA {
            r: narrow_channel(self.r, 1023),
            g: narrow_channel(self.g, 1023),
            b: narrow_channel(self.b, 1023),
            a: narrow_channel(self.a, 1023),
        }
    }
}

/// An opaque color with 12 bits per channel, stored in 16-bit words.
/// Channels are conceptually limited to 0–4095; the range is a caller
/// contract, not validated here.
#[derive(Debug, Clone, Copy, PartialEq, Eq, Structural)]
pub struct Color12Bit {
    pub r: u16,
    pub g: u16,
    pub b: u16,
}

impl Color12Bit {
    /// Builds an opaque 12-bit color from its channels.
    pub fn rgb(r: u16, g: u16, b: u16) -> (c: Self)
        ensures
            c == (Color12Bit { r, g, b }),
    {
        Color12Bit { r, g, b }
    }

    /// Builds a 12-bit color with an alpha channel.
    pub fn rgba(r: u16, g: u16, b: u16, a: u16) -> (c: Color12BitA)
        ensures
            c == (Color12BitA { r, g, b, a }),
    {
        Color12BitA { r, g, b, a }
    }

    /// Narrows each channel from 12 bits to 8 by a linear rescale.
    pub fn as_8bit(&self) -> (c: Color8Bit)
        ensures
            c.r == narrowed_channel(self.r as int, 4095),
            c.g == narrowed_channel(self.g as int, 4095),
            c.b == narrowed_channel(self.b as int, 4095),
    {
        Color8Bit {
            r: narrow_channel(self.r, 4095),
            g: narrow_channel(self.g, 4095),
            b: narrow_channel(self.b, 4095),
        }
    }
}

/// A 12-bit color with an alpha channel, stored in 16-bit words.
#[derive(Debug, Clone, Copy, PartialEq, Eq, Structural)]
pub struct Color12BitA {
    pub r: u16,
    pub g: u16,
    pub b: u16,
    pub a: u16,
}

impl Color12BitA {
    /// Builds a 12-bit color with an alpha channel.
    pub fn rgba(r: u16, g: u16, b: u16, a: u16) -> (c: Self)
        ensures
            c == (Color12BitA { r, g, b, a }),
    {
        Color12BitA { r, g, b, a }
    }

    /// Drops the alpha channel.
    pub fn as_rgb(&self) -> (c: Color12Bit)
        ensures
            c == (Color12Bit { r: self.r, g: self.g, b: self.b }),
    {
        Color12Bit { r: self.r, g: self.g, b: self.b }
    }

    /// Narrows each channel, alpha included, from 12 bits to 8 by a
    /// linear rescale.
    pub fn as_8bit(&self) -> (c: Color8BitA)
        ensures
            c.r == narrowed_channel(self.r as int, 4095),
            c.g == narrowed_channel(self.g as int, 4095),
            c.b == narrowed_channel(self.b as int, 4095),
            c.a == narrowed_channel(self.a as int, 4095),
    {
        Color8BitA {
            r: narrow_channel(self.r, 4095),
            g: narrow_channel(self.g, 4095),
            b: narrow_channel(self.b, 4095),
            a: narrow_channel(self.a, 4095),
        }
    }
}

/// Pure white.
pub fn white() -> (c: Color)
    ensures
        c == (Color8Bit { r: 255, g: 255, b: 255 }),
{
    Color8Bit { r: 255, g: 255, b: 255 }
}

/// Pure black.
pub fn black() -> (c: Color)
    ensures
        c == (Color8Bit { r: 0, g: 0, b: 0 }),
{
    Color8Bit { r: 0, g: 0, b: 0 }
}

/// Pure red.
pub fn red() -> (c: Color)
    ensures
        c == (Color8Bit { r: 255, g: 0, b: 0 }),
{
    Color8Bit { r: 255, g: 0, b: 0 }
}

/// Pure green.
pub fn green() -> (c: Color)
    ensures
        c == (Color8Bit { r: 0, g: 255, b: 0 }),
{
    Color8Bit { r: 0, g: 255, b: 0 }
}

/// Pure blue.
pub fn blue() -> (c: Color)
    ensures
        c == (Color8Bit { r: 0, g: 0, b: 255 }),
{
    Color8Bit { r: 0, g: 0, b: 255 }
}

/// Yellow: full red and green.
pub fn yellow() -> (c: Color)
    ensures
        c == (Color8Bit { r: 255, g: 255, b: 0 }),
{
    Color8Bit { r: 255, g: 255, b: 0 }
}

/// Magenta: full red and blue.
pub fn magenta() -> (c: Color)
    ensures
        c == (Color8Bit { r: 255, g: 0, b: 255 }),
{
    Color8Bit { r: 255, g: 0, b: 255 }
}

/// Cyan: full green and blue.
pub fn cyan() -> (c: Color)
    ensures
        c == (Color8Bit { r: 0, g: 255, b: 255 }),
{
    Color8Bit { r: 0, g: 255, b: 255 }
}

} // verus!

