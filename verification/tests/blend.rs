use lightmap::blend::{BlendComponent, BlendFactor, BlendOperation, BlendState};
use lightmap::color::Rgba;
use lightmap::layers::Layer;

#[test]
fn additive_blend_is_one_and_one_minus_source_alpha_added() {
    let part = BlendComponent {
        src_factor: BlendFactor::One,
        dst_factor: BlendFactor::OneMinusSrcAlpha,
        operation: BlendOperation::Add,
    };
    assert_eq!(BlendState::additive(), BlendState { color: part, alpha: part });
}

#[test]
fn alpha_blending_weighs_the_source_colour_by_its_opacity() {
    let state = BlendState::alpha_blending();
    assert_eq!(state.color.src_factor, BlendFactor::SrcAlpha);
    assert_eq!(state.color.dst_factor, BlendFactor::OneMinusSrcAlpha);
    assert_eq!(state.color.operation, BlendOperation::Add);
    assert_eq!(state.alpha.src_factor, BlendFactor::One);
    assert_eq!(state.alpha.dst_factor, BlendFactor::OneMinusSrcAlpha);
    assert_eq!(state.alpha.operation, BlendOperation::Add);
}

#[test]
fn only_lights_are_drawn_with_the_additive_blend() {
    assert_eq!(BlendState::for_layer(Layer::Light), BlendState::additive());
    assert_eq!(BlendState::for_layer(Layer::Diffuse), BlendState::alpha_blending());
    assert_eq!(BlendState::for_layer(Layer::Presentation), BlendState::alpha_blending());
    assert_ne!(BlendState::additive(), BlendState::alpha_blending());
}

#[test]
fn blend_factor_weights() {
    let source = Rgba::new(9, 9, 9, 250);
    assert_eq!(BlendFactor::Zero.weight(source), 0);
    assert_eq!(BlendFactor::One.weight(source), 1000);
    assert_eq!(BlendFactor::SrcAlpha.weight(source), 250);
    assert_eq!(BlendFactor::OneMinusSrcAlpha.weight(source), 750);
}

#[test]
fn blend_factor_weights_of_a_source_above_full_opacity() {
    let source = Rgba::new(9, 9, 9, 4000);
    assert_eq!(BlendFactor::SrcAlpha.weight(source), 1000);
    assert_eq!(BlendFactor::OneMinusSrcAlpha.weight(source), 0);
}

#[test]
fn combine_adds_the_weighted_source_and_destination() {
    let part = BlendComponent {
        src_factor: BlendFactor::SrcAlpha,
        dst_factor: BlendFactor::OneMinusSrcAlpha,
        operation: BlendOperation::Add,
    };
    let source = Rgba::new(0, 0, 0, 250);
    assert_eq!(part.combine(source, 800, 400), 200 + 300);
    let zero = BlendComponent {
        src_factor: BlendFactor::Zero,
        dst_factor: BlendFactor::Zero,
        operation: BlendOperation::Add,
    };
    assert_eq!(zero.combine(source, 800, 400), 0);
}

#[test]
fn additive_blend_of_an_opaque_light_gives_the_light() {
    let ambient = Rgba::rgb(300, 300, 300);
    let light = Rgba::rgb(900, 800, 100);
    assert_eq!(BlendState::additive().apply(light, ambient), light);
}

#[test]
fn additive_blend_of_a_half_transparent_light_adds_to_half_the_ground() {
    let ambient = Rgba::rgb(300, 300, 300);
    let light = Rgba::new(500, 0, 250, 500);
    assert_eq!(BlendState::additive().apply(light, ambient), Rgba::new(650, 150, 400, 1000));
}

#[test]
fn additive_blend_of_lights_without_opacity_adds_up() {
    let blend = BlendState::additive();
    let glow = Rgba::new(200, 100, 50, 0);
    let once = blend.apply(glow, Rgba::rgb(300, 300, 300));
    let twice = blend.apply(glow, once);
    assert_eq!(once, Rgba::new(500, 400, 350, 1000));
    assert_eq!(twice, Rgba::new(700, 500, 400, 1000));
}

#[test]
fn additive_blend_stops_at_the_largest_value() {
    let blend = BlendState::additive();
    let glow = Rgba::new(u32::MAX, 5, 0, 0);
    assert_eq!(
        blend.apply(glow, Rgba::new(7, u32::MAX - 2, 0, 1000)),
        Rgba::new(u32::MAX, u32::MAX, 0, 1000)
    );
}

#[test]
fn additive_blend_of_a_transparent_light_changes_nothing() {
    let blend = BlendState::additive();
    let ground = Rgba::new(310, 420, 530, 1000);
    let light = Rgba::new(1000, 900, 800, 0).premultiplied();
    assert_eq!(light, Rgba::new(0, 0, 0, 0));
    assert_eq!(blend.apply(light, ground), ground);
}

#[test]
fn alpha_blending_of_an_opaque_sprite_covers_the_ground() {
    let sprite = Rgba::rgb(1000, 0, 0);
    assert_eq!(BlendState::alpha_blending().apply(sprite, Rgba::rgb(43, 44, 47)), sprite);
}

#[test]
fn alpha_blending_of_a_half_transparent_sprite_mixes() {
    let sprite = Rgba::new(1000, 0, 0, 500);
    let ground = Rgba::rgb(0, 0, 1000);
    assert_eq!(BlendState::alpha_blending().apply(sprite, ground), Rgba::new(500, 0, 500, 1000));
}

#[test]
fn alpha_blending_of_a_transparent_sprite_changes_nothing() {
    let sprite = Rgba::new(1000, 1000, 1000, 0);
    let ground = Rgba::rgb(12, 34, 56);
    assert_eq!(BlendState::alpha_blending().apply(sprite, ground), ground);
}
