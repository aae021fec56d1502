//! RGB colors and the per-row background gradient.

use vstd::prelude::*;

verus! {

/// An RGB color as three 8-bit channels.
#[derive(Debug, Copy, Clone, PartialEq, Eq, Structural)]
pub struct Rgb {
    pub r: u8,
    pub g: u8,
    pub b: u8,
}

/// Green channel of gradient row `row`: `g + 10 * row`, saturating at 255.
pub open spec fn shaded_green(g: u8, row: int) -> u8 {
    if g + 10 * row > 255 {
        255u8
    } else {
        (g + 10 * row) as u8
    }
}

/// Color of gradient row `row`, built from base color `base`: only the green
/// channel is shaded, and it saturates rather than wrapping.
pub open spec fn gradient_color(base: Rgb, row: int) -> Rgb {
    Rgb { r: base.r, g: shaded_green(base.g, row), b: base.b }
}

/// Executable gradient entry for row `row`.
pub fn shade(base: Rgb, row: u16) -> (c: Rgb)
    ensures
        c == gradient_color(base, row as int),
{
    let sum: u32 = (base.g as u32) + 10u32 * (row as u32);
    let new_g: u8 = if sum > 255 {
        255
    } else {
        sum as u8
    };
    Rgb { r: base.r, g: new_g, b: base.b }
}

/// The gradient's green channel never exceeds 255 and is non-decreasing in
/// the row index: the ramp saturates instead of overflowing.
pub proof fn lemma_gradient_green_monotone(base: Rgb, i: int, j: int)
    requires
        0 <= i <= j,
    ensures
        gradient_color(base, i).g <= gradient_color(base, j).g,
        gradient_color(base, j).g <= 255,
{
}

} // verus!
