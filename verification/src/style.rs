//! The semantic palette.
//!
//! Colors are packed `0xRRGGBB` values; [`RgbChannels`] reads their
//! channels.
use vstd::prelude::*;

verus! {

/// The red, green and blue channels of a packed `0xRRGGBB` color.
pub trait RgbChannels {
    /// The red channel.
    fn r(&self) -> u8;
    /// The green channel.
    fn g(&self) -> u8;
    /// The blue channel.
    fn b(&self) -> u8;
}

/// The channel `shift` bytes up from the bottom of a packed color.
pub open spec fn channel(c: u32, shift: nat) -> u8 {
    ((c as nat / pow256(shift)) % 256) as u8
}

/// `256` to the power `k` (for `k` up to 2).
pub open spec fn pow256(k: nat) -> nat {
    if k == 0 { 1 } else if k == 1 { 256 } else { 65536 }
}

impl RgbChannels for u32 {
    fn r(&self) -> (v: u8)
        ensures
            v == channel(*self, 2),
    {
        ((*self / 65536) % 256) as u8
    }

    fn g(&self) -> (v: u8)
        ensures
            v == channel(*self, 1),
    {
        ((*self / 256) % 256) as u8
    }

    fn b(&self) -> (v: u8)
        ensures
            v == channel(*self, 0),
    {
        (*self % 256) as u8
    }
}

/// Primary accent: live timings and bandwidth values.
pub const CYAN: u32 = 0x00D4FF;
/// Secondary accent: 1:1 sync clocks, voltages, low latency.
pub const AMBER: u32 = 0xFFB300;
/// Neutral: backgrounds, separators, panel and window fills.
pub const SLATE: u32 = 0x1E1E24;
/// Alert: 1:2 desync, out-of-spec voltages, errors.
pub const CRIMSON: u32 = 0xFF3B30;
/// Muted gray: unavailable (N/A) cells, not a fault.
pub const NA_GRAY: u32 = 0x8A8A94;

} // verus!
