//! From an escape count to the colour of a pixel.

use vstd::prelude::*;

verus! {

/// One pixel: red, green and blue, eight bits each.
#[derive(Clone, Copy, Debug, PartialEq, Eq, Structural)]
pub struct Rgb {
    pub r: u8,
    pub g: u8,
    pub b: u8,
}

/// The colour of an escape count: half the count, the count, and thirty-two
/// times the count, each reduced modulo 256.
pub open spec fn color_of(val: u32) -> Rgb {
    Rgb {
        r: ((val as int / 2) % 256) as u8,
        g: (val as int % 256) as u8,
        b: ((val as int * 32) % 256) as u8,
    }
}

/// Maps an escape count to its colour.  The channels wrap around rather than
/// saturate, which gives the picture its bands.
pub fn color(val: u32) -> (c: Rgb)
    ensures
        c == color_of(val),
{
    let low: u32 = val % 8;
    assert((val as int * 32) % 256 == (val as int % 8) * 32) by (nonlinear_arith);
    Rgb { r: ((val / 2) % 256) as u8, g: (val % 256) as u8, b: (low * 32) as u8 }
}

/// The colour repeats every 512 counts: that is the width of one full band.
pub proof fn lemma_color_period(val: u32)
    requires
        val as int + 512 <= u32::MAX,
    ensures
        color_of((val + 512) as u32) == color_of(val),
{
    let v: int = val as int;
    assert(((v + 512) / 2) % 256 == (v / 2) % 256) by (nonlinear_arith);
    assert((v + 512) % 256 == v % 256) by (nonlinear_arith);
    assert(((v + 512) * 32) % 256 == (v * 32) % 256) by (nonlinear_arith);
}

} // verus!
