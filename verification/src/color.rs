//! Colors as four 8-bit channels, with exact component-wise interpolation for
//! fades.

use vstd::prelude::*;

verus! {

use crate::num::{lerp_spec, lerp_i64};

/// A color with red, green, blue and alpha channels.
#[derive(Clone, Copy, Debug, PartialEq, Eq, Structural)]
pub struct Rgba {
    pub r: u8,
    pub g: u8,
    pub b: u8,
    pub a: u8,
}

/// One interpolated channel. The exact interpolation of two channel values
/// stays within `0..=255`, so the narrowing cast is the identity.
pub open spec fn lerp_channel(a: u8, b: u8, num: int, den: int) -> u8 {
    lerp_spec(a as int, b as int, num, den) as u8
}

/// Component-wise interpolation of two colors, as a fade uses it.
pub open spec fn lerp_color_spec(a: Rgba, b: Rgba, num: int, den: int) -> Rgba {
    Rgba {
        r: lerp_channel(a.r, b.r, num, den),
        g: lerp_channel(a.g, b.g, num, den),
        b: lerp_channel(a.b, b.b, num, den),
        a: lerp_channel(a.a, b.a, num, den),
    }
}

/// An interpolated channel reproduces the mathematical interpolation exactly:
/// the value never leaves `0..=255`, so nothing is truncated.
pub proof fn lemma_lerp_channel_exact(a: u8, b: u8, num: int, den: int)
    requires
        0 <= num <= den,
        0 < den,
    ensures
        lerp_channel(a, b, num, den) as int == lerp_spec(a as int, b as int, num, den),
        0 <= lerp_spec(a as int, b as int, num, den) <= 255,
{
    crate::num::lemma_lerp_within(a as int, b as int, num, den);
}

/// Interpolates each channel of `a` toward `b` by the fraction `num / den`.
pub fn lerp_rgba(a: Rgba, b: Rgba, num: u64, den: u64) -> (r: Rgba)
    requires
        0 < den,
        num <= den,
    ensures
        r == lerp_color_spec(a, b, num as int, den as int),
{
    proof {
        lemma_lerp_channel_exact(a.r, b.r, num as int, den as int);
        lemma_lerp_channel_exact(a.g, b.g, num as int, den as int);
        lemma_lerp_channel_exact(a.b, b.b, num as int, den as int);
        lemma_lerp_channel_exact(a.a, b.a, num as int, den as int);
    }
    Rgba {
        r: lerp_i64(a.r as i64, b.r as i64, num, den) as u8,
        g: lerp_i64(a.g as i64, b.g as i64, num, den) as u8,
        b: lerp_i64(a.b as i64, b.b as i64, num, den) as u8,
        a: lerp_i64(a.a as i64, b.a as i64, num, den) as u8,
    }
}

} // verus!
