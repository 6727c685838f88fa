//! Colours in fixed point, and the arithmetic that the passes do on them.
//!
//! A channel is a count of thousandths: [`UNIT`] is full intensity, or full
//! opacity. Channels may exceed [`UNIT`], as light that adds up does, and stop
//! at the largest `u32`.

use vstd::prelude::*;

verus! {

/// The channel value that stands for one: full intensity, full opacity.
pub const UNIT: u32 = 1000;

/// The nearest channel value to `x`.
pub open spec fn saturate(x: int) -> u32 {
    if x < 0 {
        0
    } else if x > u32::MAX {
        u32::MAX
    } else {
        x as u32
    }
}

/// The fixed-point product of two channel values, rounded down.
pub open spec fn channel_product(a: u32, b: u32) -> u32 {
    saturate((a * b) / (UNIT as int))
}

/// The sum of two channel values.
pub open spec fn channel_sum(a: u32, b: u32) -> u32 {
    saturate(a + b)
}

/// The fixed-point product of two channel values, rounded down.
pub fn mul_channel(a: u32, b: u32) -> (product: u32)
    ensures
        product == channel_product(a, b),
{
    assert(a * b <= 0xffff_ffff * 0xffff_ffff) by (nonlinear_arith)
        requires
            a <= 0xffff_ffff,
            b <= 0xffff_ffff,
    ;
    let wide: u64 = (a as u64 * b as u64) / (UNIT as u64);
    if wide > u32::MAX as u64 {
        u32::MAX
    } else {
        wide as u32
    }
}

/// The sum of two channel values.
pub fn add_channel(a: u32, b: u32) -> (sum: u32)
    ensures
        sum == channel_sum(a, b),
{
    let wide: u64 = a as u64 + b as u64;
    if wide > u32::MAX as u64 {
        u32::MAX
    } else {
        wide as u32
    }
}

/// A colour: red, green, blue and opacity.
#[derive(Clone, Copy, Debug, PartialEq, Eq, Structural)]
pub struct Rgba {
    /// Red.
    pub r: u32,
    /// Green.
    pub g: u32,
    /// Blue.
    pub b: u32,
    /// Opacity.
    pub a: u32,
}

impl Rgba {
    /// The colour with these four channels.
    pub fn new(r: u32, g: u32, b: u32, a: u32) -> (color: Rgba)
        ensures
            color == (Rgba { r, g, b, a }),
    {
        Rgba { r, g, b, a }
    }

    /// The fully opaque colour with these three channels.
    pub fn rgb(r: u32, g: u32, b: u32) -> (color: Rgba)
        ensures
            color == (Rgba { r, g, b, a: UNIT }),
    {
        Rgba { r, g, b, a: UNIT }
    }

    /// The opacity, counted as no more than one.
    pub open spec fn spec_coverage(self) -> u32 {
        if self.a > UNIT {
            UNIT
        } else {
            self.a
        }
    }

    /// The opacity, counted as no more than one.
    pub fn coverage(self) -> (coverage: u32)
        ensures
            coverage == self.spec_coverage(),
            coverage <= UNIT,
    {
        if self.a > UNIT {
            UNIT
        } else {
            self.a
        }
    }

    /// The channel-wise product of two colours.
    pub open spec fn spec_modulate(self, other: Rgba) -> Rgba {
        Rgba {
            r: channel_product(self.r, other.r),
            g: channel_product(self.g, other.g),
            b: channel_product(self.b, other.b),
            a: channel_product(self.a, other.a),
        }
    }

    /// The channel-wise product of two colours.
    pub fn modulate(self, other: Rgba) -> (product: Rgba)
        ensures
            product == self.spec_modulate(other),
    {
        Rgba {
            r: mul_channel(self.r, other.r),
            g: mul_channel(self.g, other.g),
            b: mul_channel(self.b, other.b),
            a: mul_channel(self.a, other.a),
        }
    }

    /// The colour with its three colour channels weighted by its opacity.
    pub open spec fn spec_premultiplied(self) -> Rgba {
        Rgba {
            r: channel_product(self.r, self.spec_coverage()),
            g: channel_product(self.g, self.spec_coverage()),
            b: channel_product(self.b, self.spec_coverage()),
            a: self.spec_coverage(),
        }
    }

    /// The colour with its three colour channels weighted by its opacity:
    /// the form in which a light sprite is handed to the additive blend.
    pub fn premultiplied(self) -> (weighted: Rgba)
        ensures
            weighted == self.spec_premultiplied(),
    {
        let coverage: u32 = self.coverage();
        Rgba {
            r: mul_channel(self.r, coverage),
            g: mul_channel(self.g, coverage),
            b: mul_channel(self.b, coverage),
            a: coverage,
        }
    }

    /// No channel of `self` is below the same channel of `other`, opacity
    /// aside.
    pub open spec fn at_least_as_bright_as(self, other: Rgba) -> bool {
        self.r >= other.r && self.g >= other.g && self.b >= other.b
    }
}

/// One is the neutral factor of the channel product.
pub proof fn lemma_product_with_unit(a: u32)
    ensures
        channel_product(a, UNIT) == a,
        channel_product(UNIT, a) == a,
{
    assert((a * UNIT) / (UNIT as int) == a) by (nonlinear_arith);
    assert((UNIT * a) / (UNIT as int) == a) by (nonlinear_arith);
}

/// Zero absorbs in the channel product.
pub proof fn lemma_product_with_zero(a: u32)
    ensures
        channel_product(a, 0) == 0,
        channel_product(0, a) == 0,
{
    assert((a * 0) / (UNIT as int) == 0) by (nonlinear_arith);
    assert((0 * a) / (UNIT as int) == 0) by (nonlinear_arith);
}

} // verus!
