//! What the three passes compute, pixel by pixel: the two capture passes
//! draw the drawables of their layer over a cleared target, and the present
//! pass multiplies the two targets.

use crate::blend::BlendState;
use crate::color::{
    channel_product, channel_sum, lemma_product_with_unit, lemma_product_with_zero, Rgba, UNIT,
};
use crate::layers::Layer;
use vstd::prelude::*;

verus! {

/// What one drawable puts on one pixel: the layer number it wears and its
/// colour there.
#[derive(Clone, Copy, Debug, PartialEq, Eq, Structural)]
pub struct Fragment {
    /// The layer number of the drawable.
    pub layer: usize,
    /// The colour of the drawable at the pixel.
    pub color: Rgba,
}

/// What a pixel of the target of the camera on `layer` holds after the
/// camera has cleared it to `clear` and drawn `fragments` in order, each with
/// the blend of the layer. A fragment of another layer is not drawn.
pub open spec fn drawn(layer: Layer, clear: Rgba, fragments: Seq<Fragment>) -> Rgba
    decreases fragments.len(),
{
    if fragments.len() == 0 {
        clear
    } else {
        let below = drawn(layer, clear, fragments.drop_last());
        if layer.spec_observes(fragments.last().layer) {
            BlendState::spec_for_layer(layer).spec_apply(fragments.last().color, below)
        } else {
            below
        }
    }
}

/// One pixel of a capture pass: clears to `clear`, then draws in order those
/// of `fragments` that wear the number of `layer`, each with the blend of the
/// layer.
pub fn capture_pixel(layer: Layer, clear: Rgba, fragments: &Vec<Fragment>) -> (pixel: Rgba)
    ensures
        pixel == drawn(layer, clear, fragments@),
{
    let blend = BlendState::for_layer(layer);
    let mut pixel = clear;
    let mut i: usize = 0;
    assert(fragments@.take(0).len() == 0);
    while i < fragments.len()
        invariant
            i <= fragments.len(),
            blend == BlendState::spec_for_layer(layer),
            pixel == drawn(layer, clear, fragments@.take(i as int)),
        decreases fragments.len() - i,
    {
        let ghost next = fragments@.take(i + 1);
        assert(next.drop_last() =~= fragments@.take(i as int));
        assert(next.last() == fragments@[i as int]);
        if layer.observes(fragments[i].layer) {
            pixel = blend.apply(fragments[i].color, pixel);
        }
        i = i + 1;
    }
    assert(fragments@.take(i as int) =~= fragments@);
    pixel
}

/// One pixel of the present pass: the product of what the two targets hold
/// there, channel by channel.
pub fn composite(texture1: Rgba, texture2: Rgba) -> (out: Rgba)
    ensures
        out == texture1.spec_modulate(texture2),
        out.r == channel_product(texture1.r, texture2.r),
        out.g == channel_product(texture1.g, texture2.g),
        out.b == channel_product(texture1.b, texture2.b),
{
    texture1.modulate(texture2)
}

/// The present pass over whole targets: the product, pixel by pixel, of two
/// targets of the same number of pixels; nothing where their numbers differ.
pub fn present(texture1: &Vec<Rgba>, texture2: &Vec<Rgba>) -> (out: Option<Vec<Rgba>>)
    ensures
        out is Some <==> texture1@.len() == texture2@.len(),
        out matches Some(image) ==> {
            &&& image@.len() == texture1@.len()
            &&& forall|i: int|
                0 <= i < image@.len() ==> #[trigger] image@[i] == texture1@[i].spec_modulate(
                    texture2@[i],
                )
        },
{
    if texture1.len() != texture2.len() {
        return None;
    }
    let mut image: Vec<Rgba> = Vec::new();
    let mut i: usize = 0;
    while i < texture1.len()
        invariant
            i <= texture1.len(),
            texture1@.len() == texture2@.len(),
            image@.len() == i,
            forall|k: int|
                0 <= k < i ==> #[trigger] image@[k] == texture1@[k].spec_modulate(texture2@[k]),
        decreases texture1.len() - i,
    {
        image.push(composite(texture1[i], texture2[i]));
        i = i + 1;
    }
    Some(image)
}

/// What one pixel of the window shows after a frame: the diffuse pass over
/// `clear`, the light pass over `ambient`, and the product of the two.
pub open spec fn spec_frame_pixel(clear: Rgba, ambient: Rgba, fragments: Seq<Fragment>) -> Rgba {
    drawn(Layer::Diffuse, clear, fragments).spec_modulate(drawn(Layer::Light, ambient, fragments))
}

/// One pixel of a whole frame: the diffuse pass cleared to `clear`, the
/// light pass cleared to `ambient`, both over the same `fragments`, and the
/// present pass over the two.
pub fn frame_pixel(clear: Rgba, ambient: Rgba, fragments: &Vec<Fragment>) -> (out: Rgba)
    ensures
        out == spec_frame_pixel(clear, ambient, fragments@),
{
    let diffuse = capture_pixel(Layer::Diffuse, clear, fragments);
    let light = capture_pixel(Layer::Light, ambient, fragments);
    composite(diffuse, light)
}

/// The colour channels of the composite do not depend on the opacity of
/// either input.
pub proof fn lemma_composite_ignores_alpha(texture1: Rgba, texture2: Rgba, a1: u32, a2: u32)
    ensures
        ({
            let out = texture1.spec_modulate(texture2);
            let other = (Rgba { a: a1, ..texture1 }).spec_modulate(Rgba { a: a2, ..texture2 });
            out.r == other.r && out.g == other.g && out.b == other.b
        }),
{
}

/// A target shows nothing of a drawable of another layer: with or without
/// the fragment `foreign` anywhere among the fragments, the camera on `layer`
/// leaves the same pixel.
pub proof fn lemma_foreign_fragment_leaves_no_trace(
    layer: Layer,
    clear: Rgba,
    before: Seq<Fragment>,
    foreign: Fragment,
    after: Seq<Fragment>,
)
    requires
        !layer.spec_observes(foreign.layer),
    ensures
        drawn(layer, clear, before.push(foreign) + after) == drawn(layer, clear, before + after),
    decreases after.len(),
{
    if after.len() == 0 {
        assert(before.push(foreign) + after =~= before.push(foreign));
        assert(before + after =~= before);
        assert(before.push(foreign).drop_last() =~= before);
    } else {
        let with = before.push(foreign) + after;
        let without = before + after;
        assert(with.drop_last() =~= before.push(foreign) + after.drop_last());
        assert(without.drop_last() =~= before + after.drop_last());
        assert(with.last() == after.last());
        assert(without.last() == after.last());
        lemma_foreign_fragment_leaves_no_trace(layer, clear, before, foreign, after.drop_last());
    }
}

/// The diffuse target shows nothing of a light, and the light target nothing
/// of a diffuse sprite.
pub proof fn lemma_capture_layers_isolated(
    clear: Rgba,
    before: Seq<Fragment>,
    fragment: Fragment,
    after: Seq<Fragment>,
)
    ensures
        fragment.layer == crate::layers::CAMERA_LAYER_SPRITE ==> drawn(
            Layer::Light,
            clear,
            before.push(fragment) + after,
        ) == drawn(Layer::Light, clear, before + after),
        fragment.layer == crate::layers::CAMERA_LAYER_LIGHT ==> drawn(
            Layer::Diffuse,
            clear,
            before.push(fragment) + after,
        ) == drawn(Layer::Diffuse, clear, before + after),
{
    if fragment.layer == crate::layers::CAMERA_LAYER_SPRITE {
        lemma_foreign_fragment_leaves_no_trace(Layer::Light, clear, before, fragment, after);
    }
    if fragment.layer == crate::layers::CAMERA_LAYER_LIGHT {
        lemma_foreign_fragment_leaves_no_trace(Layer::Diffuse, clear, before, fragment, after);
    }
}

/// A light of full opacity replaces what the light target held by its own
/// colour.
pub proof fn lemma_opaque_light_covers(light: Rgba, dst: Rgba)
    requires
        light.a >= UNIT,
    ensures
        ({
            let out = BlendState::spec_additive().spec_apply(light, dst);
            out.r == light.r && out.g == light.g && out.b == light.b && out.a == light.a
        }),
{
    lemma_product_with_unit(light.r);
    lemma_product_with_unit(light.g);
    lemma_product_with_unit(light.b);
    lemma_product_with_unit(light.a);
    lemma_product_with_zero(dst.r);
    lemma_product_with_zero(dst.g);
    lemma_product_with_zero(dst.b);
    lemma_product_with_zero(dst.a);
}

/// Two lights of one colour and full opacity, one over the other on a target
/// cleared to `ambient`, leave a pixel at least as bright as either of them
/// alone does.
pub proof fn lemma_overlapping_lights_not_darker(ambient: Rgba, light: Rgba)
    requires
        light.a >= UNIT,
    ensures
        ({
            let blend = BlendState::spec_additive();
            let alone = blend.spec_apply(light, ambient);
            let both = blend.spec_apply(light, alone);
            both.at_least_as_bright_as(alone)
        }),
        ({
            let lit = Fragment { layer: crate::layers::CAMERA_LAYER_LIGHT, color: light };
            drawn(Layer::Light, ambient, seq![lit, lit]).at_least_as_bright_as(
                drawn(Layer::Light, ambient, seq![lit]),
            )
        }),
{
    let blend = BlendState::spec_additive();
    let alone = blend.spec_apply(light, ambient);
    lemma_opaque_light_covers(light, ambient);
    lemma_opaque_light_covers(light, alone);
    let lit = Fragment { layer: crate::layers::CAMERA_LAYER_LIGHT, color: light };
    let one = seq![lit];
    let two = seq![lit, lit];
    assert(one.drop_last() =~= Seq::<Fragment>::empty());
    assert(two.drop_last() =~= one);
    reveal_with_fuel(drawn, 3);
}

/// A light without opacity is added to what the light target held, channel
/// by channel; the opacity of the target stays.
pub proof fn lemma_light_without_opacity_adds(light: Rgba, dst: Rgba)
    requires
        light.a == 0,
    ensures
        ({
            let out = BlendState::spec_additive().spec_apply(light, dst);
            &&& out.r == channel_sum(light.r, dst.r)
            &&& out.g == channel_sum(light.g, dst.g)
            &&& out.b == channel_sum(light.b, dst.b)
            &&& out.a == dst.a
        }),
{
    lemma_product_with_unit(light.r);
    lemma_product_with_unit(light.g);
    lemma_product_with_unit(light.b);
    lemma_product_with_unit(light.a);
    lemma_product_with_unit(dst.r);
    lemma_product_with_unit(dst.g);
    lemma_product_with_unit(dst.b);
    lemma_product_with_unit(dst.a);
}

/// A light that is wholly transparent changes no pixel of the light target:
/// weighted by its opacity of zero it adds nothing, and it takes nothing
/// away.
pub proof fn lemma_transparent_light_changes_nothing(light: Rgba, dst: Rgba)
    requires
        light.a == 0,
    ensures
        BlendState::spec_additive().spec_apply(light.spec_premultiplied(), dst) == dst,
{
    lemma_product_with_zero(light.r);
    lemma_product_with_zero(light.g);
    lemma_product_with_zero(light.b);
    lemma_product_with_zero(UNIT);
    lemma_product_with_unit(dst.r);
    lemma_product_with_unit(dst.g);
    lemma_product_with_unit(dst.b);
    lemma_product_with_unit(dst.a);
}

} // verus!
