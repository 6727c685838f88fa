//! Blend states, and the additive blend with which light sprites are drawn
//! into the light target.

use crate::color::{add_channel, channel_product, channel_sum, mul_channel, Rgba, UNIT};
use crate::layers::Layer;
use vstd::prelude::*;

verus! {

/// What a colour is weighted by when it is blended.
#[derive(Clone, Copy, Debug, PartialEq, Eq, Structural)]
pub enum BlendFactor {
    /// Nothing.
    Zero,
    /// One.
    One,
    /// The opacity of the source.
    SrcAlpha,
    /// One less the opacity of the source.
    OneMinusSrcAlpha,
}

/// How the weighted source and destination are combined.
#[derive(Clone, Copy, Debug, PartialEq, Eq, Structural)]
pub enum BlendOperation {
    /// Source plus destination.
    Add,
}

/// The blend equation of one part of a colour: its colour channels, or its
/// opacity.
#[derive(Clone, Copy, Debug, PartialEq, Eq, Structural)]
pub struct BlendComponent {
    /// Weight of the source.
    pub src_factor: BlendFactor,
    /// Weight of the destination.
    pub dst_factor: BlendFactor,
    /// How the two weighted values are combined.
    pub operation: BlendOperation,
}

/// The blend equations of a draw: one for the colour channels, one for the
/// opacity.
#[derive(Clone, Copy, Debug, PartialEq, Eq, Structural)]
pub struct BlendState {
    /// Equation of red, green and blue.
    pub color: BlendComponent,
    /// Equation of the opacity.
    pub alpha: BlendComponent,
}

impl BlendFactor {
    /// The weight that the factor stands for when a source of the given
    /// opacity is drawn.
    pub open spec fn spec_weight(self, source: Rgba) -> u32 {
        match self {
            BlendFactor::Zero => 0,
            BlendFactor::One => UNIT,
            BlendFactor::SrcAlpha => source.spec_coverage(),
            BlendFactor::OneMinusSrcAlpha => (UNIT - source.spec_coverage()) as u32,
        }
    }

    /// The weight that the factor stands for when `source` is drawn.
    pub fn weight(self, source: Rgba) -> (weight: u32)
        ensures
            weight == self.spec_weight(source),
            weight <= UNIT,
    {
        match self {
            BlendFactor::Zero => 0,
            BlendFactor::One => UNIT,
            BlendFactor::SrcAlpha => source.coverage(),
            BlendFactor::OneMinusSrcAlpha => UNIT - source.coverage(),
        }
    }
}

impl BlendComponent {
    /// One channel after the draw: the source value `src` of `source`
    /// combined with what the target held, `dst`.
    pub open spec fn spec_combine(self, source: Rgba, src: u32, dst: u32) -> u32 {
        channel_sum(
            channel_product(src, self.src_factor.spec_weight(source)),
            channel_product(dst, self.dst_factor.spec_weight(source)),
        )
    }

    /// One channel after the draw: the source value `src` of `source`
    /// combined with what the target held, `dst`.
    pub fn combine(&self, source: Rgba, src: u32, dst: u32) -> (out: u32)
        ensures
            out == self.spec_combine(source, src, dst),
    {
        let weighted_src: u32 = mul_channel(src, self.src_factor.weight(source));
        let weighted_dst: u32 = mul_channel(dst, self.dst_factor.weight(source));
        match self.operation {
            BlendOperation::Add => add_channel(weighted_src, weighted_dst),
        }
    }
}

impl BlendState {
    /// The additive blend of light sprites: the source counts in full, the
    /// destination by one less the source's opacity, and the two are added,
    /// for the colour channels and for the opacity alike.
    pub open spec fn spec_additive() -> BlendState {
        BlendState {
            color: BlendComponent {
                src_factor: BlendFactor::One,
                dst_factor: BlendFactor::OneMinusSrcAlpha,
                operation: BlendOperation::Add,
            },
            alpha: BlendComponent {
                src_factor: BlendFactor::One,
                dst_factor: BlendFactor::OneMinusSrcAlpha,
                operation: BlendOperation::Add,
            },
        }
    }

    /// The additive blend of light sprites.
    pub fn additive() -> (state: BlendState)
        ensures
            state == BlendState::spec_additive(),
    {
        let part = BlendComponent {
            src_factor: BlendFactor::One,
            dst_factor: BlendFactor::OneMinusSrcAlpha,
            operation: BlendOperation::Add,
        };
        BlendState { color: part, alpha: part }
    }

    /// Plain alpha blending, the blend of every drawable that is no light:
    /// the source's colour counts by its opacity.
    pub open spec fn spec_alpha_blending() -> BlendState {
        BlendState {
            color: BlendComponent {
                src_factor: BlendFactor::SrcAlpha,
                dst_factor: BlendFactor::OneMinusSrcAlpha,
                operation: BlendOperation::Add,
            },
            alpha: BlendComponent {
                src_factor: BlendFactor::One,
                dst_factor: BlendFactor::OneMinusSrcAlpha,
                operation: BlendOperation::Add,
            },
        }
    }

    /// Plain alpha blending.
    pub fn alpha_blending() -> (state: BlendState)
        ensures
            state == BlendState::spec_alpha_blending(),
    {
        BlendState {
            color: BlendComponent {
                src_factor: BlendFactor::SrcAlpha,
                dst_factor: BlendFactor::OneMinusSrcAlpha,
                operation: BlendOperation::Add,
            },
            alpha: BlendComponent {
                src_factor: BlendFactor::One,
                dst_factor: BlendFactor::OneMinusSrcAlpha,
                operation: BlendOperation::Add,
            },
        }
    }

    /// The blend with which a drawable of `layer` is drawn: the additive
    /// blend for a light, plain alpha blending for anything else.
    pub open spec fn spec_for_layer(layer: Layer) -> BlendState {
        if layer == Layer::Light {
            BlendState::spec_additive()
        } else {
            BlendState::spec_alpha_blending()
        }
    }

    /// The blend with which a drawable of `layer` is drawn.
    pub fn for_layer(layer: Layer) -> (state: BlendState)
        ensures
            state == BlendState::spec_for_layer(layer),
    {
        match layer {
            Layer::Light => BlendState::additive(),
            _ => BlendState::alpha_blending(),
        }
    }

    /// What a pixel of the target holds after `source` was drawn over `dst`.
    pub open spec fn spec_apply(self, source: Rgba, dst: Rgba) -> Rgba {
        Rgba {
            r: self.color.spec_combine(source, source.r, dst.r),
            g: self.color.spec_combine(source, source.g, dst.g),
            b: self.color.spec_combine(source, source.b, dst.b),
            a: self.alpha.spec_combine(source, source.a, dst.a),
        }
    }

    /// Draws `source` over `dst`: what the pixel of the target holds after.
    pub fn apply(&self, source: Rgba, dst: Rgba) -> (out: Rgba)
        ensures
            out == self.spec_apply(source, dst),
    {
        Rgba {
            r: self.color.combine(source, source.r, dst.r),
            g: self.color.combine(source, source.g, dst.g),
            b: self.color.combine(source, source.b, dst.b),
            a: self.alpha.combine(source, source.a, dst.a),
        }
    }
}

} // verus!
