//! Window sizes: physical pixels, the device scale factor, and the logical
//! size that the two of them give.

use vstd::arithmetic::power2::{lemma2_to64, lemma_pow2_strictly_increases, lemma_pow2_unfold, pow2};
use vstd::prelude::*;

verus! {

/// Whether the single-precision binary encoding `bits` has its sign set.
pub open spec fn encoded_negative(bits: u32) -> bool {
    bits >= 0x8000_0000
}

/// The exponent field of the single-precision binary encoding `bits`.
pub open spec fn encoded_exponent(bits: u32) -> int {
    (bits as int / 0x80_0000) % 0x100
}

/// The significand of the single-precision binary encoding `bits`, with its
/// leading one: the number encoded is this times two to the power of the
/// exponent field less 150.
pub open spec fn encoded_significand(bits: u32) -> int {
    0x80_0000 + bits as int % 0x80_0000
}

/// Whether `bits` encodes a number that is the ratio of two `u32`: a positive
/// one from a 256th up to, but not reaching, two to the power of 32.
pub open spec fn encodes_scale(bits: u32) -> bool {
    !encoded_negative(bits) && 119 <= encoded_exponent(bits) <= 158
}

/// Numerator of the number that `bits` encodes, over [`encoded_denom`].
pub open spec fn encoded_numer(bits: u32) -> nat {
    if encoded_exponent(bits) >= 150 {
        (encoded_significand(bits) * pow2((encoded_exponent(bits) - 150) as nat)) as nat
    } else {
        encoded_significand(bits) as nat
    }
}

/// Denominator of the number that `bits` encodes.
pub open spec fn encoded_denom(bits: u32) -> nat {
    if encoded_exponent(bits) >= 150 {
        1
    } else {
        pow2((150 - encoded_exponent(bits)) as nat)
    }
}

/// A device scale factor: the positive ratio `numer / denom` of physical to
/// logical pixels.
#[derive(Clone, Copy, Debug, PartialEq, Eq, Structural)]
pub struct ScaleFactor {
    numer: u32,
    denom: u32,
}

impl ScaleFactor {
    /// Numerator of the ratio.
    pub closed spec fn spec_numer(&self) -> u32 {
        self.numer
    }

    /// Denominator of the ratio.
    pub closed spec fn spec_denom(&self) -> u32 {
        self.denom
    }

    /// Neither part of the ratio is zero. Every scale factor that a program
    /// holds is of this kind.
    #[verifier::type_invariant]
    pub open spec fn wf(&self) -> bool {
        self.spec_numer() > 0 && self.spec_denom() > 0
    }

    /// The ratio `numer / denom`, or nothing where either part is zero.
    pub fn new(numer: u32, denom: u32) -> (made: Option<ScaleFactor>)
        ensures
            made is Some <==> numer > 0 && denom > 0,
            made matches Some(scale) ==> scale.wf() && scale.spec_numer() == numer
                && scale.spec_denom() == denom,
    {
        if numer == 0 || denom == 0 {
            None
        } else {
            Some(ScaleFactor { numer, denom })
        }
    }

    /// The scale factor that `bits` encodes in single-precision binary form,
    /// exactly and in lowest terms; nothing where the number encoded is not
    /// positive, or no ratio of two `u32`.
    pub fn from_bits(bits: u32) -> (made: Option<ScaleFactor>)
        ensures
            made is Some <==> encodes_scale(bits),
            made matches Some(scale) ==> {
                &&& scale.wf()
                &&& scale.spec_numer() * encoded_denom(bits) == encoded_numer(bits)
                    * scale.spec_denom()
                &&& encoded_denom(bits) as int % scale.spec_denom() as int == 0
                &&& (scale.spec_denom() == 1 || scale.spec_numer() % 2 == 1)
            },
    {
        if bits >= 0x8000_0000 {
            return None;
        }
        let exponent: u32 = (bits / 0x80_0000) % 0x100;
        if exponent < 119 || exponent > 158 {
            return None;
        }
        let significand: u32 = 0x80_0000 + bits % 0x80_0000;
        let mut numer: u32 = significand;
        let mut denom: u32 = 1;
        let mut k: u32 = 0;
        proof {
            lemma2_to64();
        }
        if exponent >= 150 {
            let steps: u32 = exponent - 150;
            while k < steps
                invariant
                    k <= steps <= 8,
                    significand < 0x100_0000,
                    numer == significand * pow2(k as nat),
                    numer >= 1,
                    denom == 1,
                decreases steps - k,
            {
                proof {
                    lemma2_to64();
                    lemma_pow2_unfold((k + 1) as nat);
                    if k + 1 < 8 {
                        lemma_pow2_strictly_increases((k + 1) as nat, 8);
                    }
                    assert(significand * (2 * pow2(k as nat)) < 0x100_0000 * 0x100)
                        by (nonlinear_arith)
                        requires
                            significand < 0x100_0000,
                            2 * pow2(k as nat) <= 0x100,
                    ;
                    assert(significand * (2 * pow2(k as nat)) == (significand * pow2(k as nat))
                        * 2) by (nonlinear_arith);
                }
                numer = numer * 2;
                k = k + 1;
            }
        } else {
            let steps: u32 = 150 - exponent;
            let ghost mut q: nat = 1;
            while k < steps
                invariant
                    k <= steps <= 31,
                    1 <= numer <= significand,
                    1 <= denom,
                    1 <= q,
                    numer * pow2(k as nat) == significand * denom,
                    denom * q == pow2(k as nat),
                    denom == 1 || numer % 2 == 1,
                decreases steps - k,
            {
                let ghost before = pow2(k as nat);
                proof {
                    lemma2_to64();
                    lemma_pow2_unfold((k + 1) as nat);
                    if k + 1 < 31 {
                        lemma_pow2_strictly_increases((k + 1) as nat, 31);
                    }
                    assert(denom <= before) by (nonlinear_arith)
                        requires
                            denom * q == before,
                            q >= 1,
                            denom >= 1,
                    ;
                }
                if numer % 2 == 0 {
                    let half: u32 = numer / 2;
                    proof {
                        assert(half * (2 * before) == significand * denom) by (nonlinear_arith)
                            requires
                                numer == 2 * half,
                                numer * before == significand * denom,
                        ;
                        assert(denom * (2 * q) == 2 * before) by (nonlinear_arith)
                            requires
                                denom * q == before,
                        ;
                        q = 2 * q;
                    }
                    numer = half;
                } else {
                    proof {
                        assert(numer * (2 * before) == significand * (denom * 2))
                            by (nonlinear_arith)
                            requires
                                numer * before == significand * denom,
                        ;
                        assert((denom * 2) * q == 2 * before) by (nonlinear_arith)
                            requires
                                denom * q == before,
                        ;
                    }
                    denom = denom * 2;
                }
                k = k + 1;
            }
            proof {
                assert((denom * q) % (denom as int) == 0) by (nonlinear_arith)
                    requires
                        denom >= 1,
                ;
            }
        }
        Some(ScaleFactor { numer, denom })
    }

    /// The scale factor one: a physical pixel is a logical pixel.
    pub fn one() -> (scale: ScaleFactor)
        ensures
            scale.wf(),
            scale.spec_numer() == 1,
            scale.spec_denom() == 1,
    {
        ScaleFactor { numer: 1, denom: 1 }
    }

    /// Numerator of the ratio.
    pub fn numer(&self) -> (numer: u32)
        ensures
            numer == self.spec_numer(),
    {
        self.numer
    }

    /// Denominator of the ratio.
    pub fn denom(&self) -> (denom: u32)
        ensures
            denom == self.spec_denom(),
    {
        self.denom
    }
}

/// The whole logical pixels in `physical` physical pixels at `scale`: the
/// quotient `physical / scale`, rounded down.
pub open spec fn logical_pixels(physical: u32, scale: ScaleFactor) -> nat {
    ((physical * scale.spec_denom()) / (scale.spec_numer() as int)) as nat
}

/// A size in logical pixels, kept exactly: the physical size it came from
/// and the scale factor that divides it.
#[derive(Clone, Copy, Debug, PartialEq, Eq, Structural)]
pub struct LogicalSize {
    /// Width in physical pixels.
    pub physical_width: u32,
    /// Height in physical pixels.
    pub physical_height: u32,
    /// The factor that both are divided by.
    pub scale_factor: ScaleFactor,
}

impl LogicalSize {
    /// The scale factor is a proper ratio.
    pub open spec fn wf(&self) -> bool {
        self.scale_factor.wf()
    }

    /// Whole logical pixels across.
    pub open spec fn spec_pixel_width(&self) -> nat {
        logical_pixels(self.physical_width, self.scale_factor)
    }

    /// Whole logical pixels down.
    pub open spec fn spec_pixel_height(&self) -> nat {
        logical_pixels(self.physical_height, self.scale_factor)
    }

    /// The size covers no whole pixel.
    pub open spec fn spec_is_empty(&self) -> bool {
        self.spec_pixel_width() == 0 || self.spec_pixel_height() == 0
    }

    /// Whole logical pixels across.
    pub fn pixel_width(&self) -> (pixels: u64)
        ensures
            pixels == self.spec_pixel_width(),
    {
        whole_pixels(self.physical_width, self.scale_factor)
    }

    /// Whole logical pixels down.
    pub fn pixel_height(&self) -> (pixels: u64)
        ensures
            pixels == self.spec_pixel_height(),
    {
        whole_pixels(self.physical_height, self.scale_factor)
    }

    /// Whether the size covers no whole pixel.
    pub fn is_empty(&self) -> (empty: bool)
        ensures
            empty == self.spec_is_empty(),
    {
        self.pixel_width() == 0 || self.pixel_height() == 0
    }
}

/// The whole logical pixels in `physical` physical pixels at `scale`.
pub fn whole_pixels(physical: u32, scale: ScaleFactor) -> (pixels: u64)
    ensures
        pixels == logical_pixels(physical, scale),
{
    proof {
        use_type_invariant(&scale);
    }
    let denom: u64 = scale.denom() as u64;
    let numer: u64 = scale.numer() as u64;
    assert(physical * denom <= 0xffff_ffff * 0xffff_ffff) by (nonlinear_arith)
        requires
            physical <= 0xffff_ffff,
            denom <= 0xffff_ffff,
    ;
    (physical as u64 * denom) / numer
}

/// What is known of the primary window: its size in physical pixels and its
/// scale factor.
#[derive(Clone, Copy, Debug, PartialEq, Eq, Structural)]
pub struct Window {
    /// Width in physical pixels.
    pub physical_width: u32,
    /// Height in physical pixels.
    pub physical_height: u32,
    /// Physical pixels per logical pixel.
    pub scale_factor: ScaleFactor,
}

impl Window {
    /// The window's size in logical pixels.
    pub open spec fn spec_logical_size(&self) -> LogicalSize {
        LogicalSize {
            physical_width: self.physical_width,
            physical_height: self.physical_height,
            scale_factor: self.scale_factor,
        }
    }

    /// The window's size in logical pixels.
    pub fn logical_size(&self) -> (size: LogicalSize)
        ensures
            size == self.spec_logical_size(),
    {
        LogicalSize {
            physical_width: self.physical_width,
            physical_height: self.physical_height,
            scale_factor: self.scale_factor,
        }
    }
}

/// The signal that the window has taken a new size, in physical pixels.
#[derive(Clone, Copy, Debug, PartialEq, Eq, Structural)]
pub struct WindowResized {
    /// New width in physical pixels.
    pub width: u32,
    /// New height in physical pixels.
    pub height: u32,
}

impl WindowResized {
    /// The logical size that the signal gives in a window of scale factor
    /// `scale`.
    pub open spec fn spec_logical_size(&self, scale: ScaleFactor) -> LogicalSize {
        LogicalSize { physical_width: self.width, physical_height: self.height, scale_factor: scale }
    }

    /// The logical size that the signal gives in a window of scale factor
    /// `scale`.
    pub fn logical_size(&self, scale: ScaleFactor) -> (size: LogicalSize)
        ensures
            size == self.spec_logical_size(scale),
    {
        LogicalSize { physical_width: self.width, physical_height: self.height, scale_factor: scale }
    }
}

/// The whole logical pixels are the quotient rounded down: scaled back up
/// they do not exceed the physical pixels, and one more of them would.
pub proof fn lemma_logical_pixels_rounds_down(physical: u32, scale: ScaleFactor)
    requires
        scale.wf(),
    ensures
        logical_pixels(physical, scale) * scale.spec_numer() <= physical * scale.spec_denom(),
        physical * scale.spec_denom() < (logical_pixels(physical, scale) + 1)
            * scale.spec_numer(),
{
    let n = scale.spec_numer() as int;
    let x = physical * scale.spec_denom();
    assert((x / n) * n <= x < (x / n + 1) * n) by (nonlinear_arith)
        requires
            n > 0,
            x >= 0,
    ;
    assert(x / n >= 0) by (nonlinear_arith)
        requires
            n > 0,
            x >= 0,
    ;
}

/// Where the two parts of the scale factor are equal, the factor is one and
/// the logical pixels are the physical pixels.
pub proof fn lemma_unit_ratio_keeps_pixels(physical: u32, scale: ScaleFactor)
    requires
        scale.wf(),
        scale.spec_numer() == scale.spec_denom(),
    ensures
        logical_pixels(physical, scale) == physical,
{
    let d = scale.spec_denom() as int;
    assert((physical * d) / d == physical) by (nonlinear_arith)
        requires
            d > 0,
            physical >= 0,
    ;
}

} // verus!
