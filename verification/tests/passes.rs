use lightmap::color::Rgba;
use lightmap::layers::{Layer, CAMERA_FINAL_IMAGE, CAMERA_LAYER_LIGHT, CAMERA_LAYER_SPRITE};
use lightmap::passes::{capture_pixel, composite, frame_pixel, present, Fragment};

fn milli(value: f32) -> u32 {
    (value * 1000.0).round() as u32
}

fn color(r: f32, g: f32, b: f32) -> Rgba {
    Rgba::rgb(milli(r), milli(g), milli(b))
}

fn sprite(color: Rgba) -> Fragment {
    Fragment { layer: CAMERA_LAYER_SPRITE, color }
}

fn light(color: Rgba) -> Fragment {
    Fragment { layer: CAMERA_LAYER_LIGHT, color }
}

#[test]
fn composite_is_the_product_of_the_two_pixels() {
    let out = composite(Rgba::new(800, 600, 400, 1000), Rgba::new(500, 250, 2000, 1000));
    assert_eq!((out.r, out.g, out.b), (400, 150, 800));
}

#[test]
fn composite_colour_does_not_depend_on_opacity() {
    let t1 = Rgba::new(800, 600, 400, 1000);
    let t2 = Rgba::new(500, 250, 2000, 1000);
    let expected = composite(t1, t2);
    for a1 in [0, 1, 500, 1000, 5000] {
        for a2 in [0, 1, 500, 1000, 5000] {
            let out = composite(Rgba { a: a1, ..t1 }, Rgba { a: a2, ..t2 });
            assert_eq!((out.r, out.g, out.b), (expected.r, expected.g, expected.b));
        }
    }
}

#[test]
fn present_multiplies_pixel_by_pixel() {
    let diffuse = vec![Rgba::rgb(1000, 0, 0), Rgba::rgb(0, 1000, 0), Rgba::rgb(500, 500, 500)];
    let lights = vec![Rgba::rgb(300, 300, 300), Rgba::rgb(1000, 500, 0), Rgba::rgb(2000, 0, 1000)];
    assert_eq!(
        present(&diffuse, &lights),
        Some(vec![Rgba::rgb(300, 0, 0), Rgba::rgb(0, 500, 0), Rgba::rgb(1000, 0, 500)])
    );
}

#[test]
fn present_of_empty_targets_is_empty() {
    assert_eq!(present(&Vec::new(), &Vec::new()), Some(Vec::new()));
}

#[test]
fn present_refuses_targets_of_different_sizes() {
    let diffuse = vec![Rgba::rgb(1000, 0, 0), Rgba::rgb(0, 1000, 0)];
    let lights = vec![Rgba::rgb(300, 300, 300)];
    assert_eq!(present(&diffuse, &lights), None);
    assert_eq!(present(&lights, &diffuse), None);
}

#[test]
fn capture_of_nothing_is_the_clear_colour() {
    let ambient = color(0.3, 0.3, 0.3);
    assert_eq!(capture_pixel(Layer::Light, ambient, &Vec::new()), ambient);
    assert_eq!(capture_pixel(Layer::Diffuse, ambient, &Vec::new()), ambient);
}

#[test]
fn light_pass_adds_lights_onto_the_ambient_light() {
    let ambient = color(0.3, 0.3, 0.3);
    let glow = Rgba::new(200, 100, 0, 0);
    let pixel = capture_pixel(Layer::Light, ambient, &vec![light(glow), light(glow)]);
    assert_eq!(pixel, Rgba::new(700, 500, 300, 1000));
}

#[test]
fn two_opaque_lights_are_no_darker_than_one() {
    let ambient = color(0.3, 0.3, 0.3);
    let lamp = color(0.9, 0.8, 0.2);
    let one = capture_pixel(Layer::Light, ambient, &vec![light(lamp)]);
    let two = capture_pixel(Layer::Light, ambient, &vec![light(lamp), light(lamp)]);
    assert!(two.r >= one.r && two.g >= one.g && two.b >= one.b);
    assert_eq!(one, lamp);
    assert_eq!(two, lamp);
}

#[test]
fn a_transparent_light_leaves_the_light_target_as_it_was() {
    let ambient = color(0.3, 0.3, 0.3);
    let lamp = color(0.9, 0.8, 0.2);
    let unseen = Rgba::new(1000, 1000, 1000, 0).premultiplied();
    assert_eq!(capture_pixel(Layer::Light, ambient, &vec![light(unseen)]), ambient);
    assert_eq!(
        capture_pixel(Layer::Light, ambient, &vec![light(lamp), light(unseen)]),
        capture_pixel(Layer::Light, ambient, &vec![light(lamp)])
    );
}

#[test]
fn diffuse_pass_draws_sprites_in_order() {
    let ground = Rgba::rgb(0, 0, 1000);
    let veil = Rgba::new(1000, 0, 0, 500);
    let wall = Rgba::rgb(0, 1000, 0);
    assert_eq!(
        capture_pixel(Layer::Diffuse, ground, &vec![sprite(wall), sprite(veil)]),
        Rgba::new(500, 500, 0, 1000)
    );
    assert_eq!(capture_pixel(Layer::Diffuse, ground, &vec![sprite(veil), sprite(wall)]), wall);
}

#[test]
fn light_target_shows_nothing_of_a_diffuse_sprite() {
    let ambient = color(0.3, 0.3, 0.3);
    let lamp = Rgba::new(400, 300, 0, 250);
    let wall = color(1.0, 0.0, 0.0);
    let with = vec![sprite(wall), light(lamp), sprite(wall), light(lamp), sprite(wall)];
    let without = vec![light(lamp), light(lamp)];
    assert_eq!(
        capture_pixel(Layer::Light, ambient, &with),
        capture_pixel(Layer::Light, ambient, &without)
    );
}

#[test]
fn sprite_target_shows_nothing_of_a_light() {
    let clear = Rgba::rgb(43, 44, 47);
    let lamp = Rgba::new(400, 300, 0, 250);
    let veil = Rgba::new(1000, 0, 0, 500);
    let with = vec![light(lamp), sprite(veil), light(lamp), sprite(veil), light(lamp)];
    let without = vec![sprite(veil), sprite(veil)];
    assert_eq!(
        capture_pixel(Layer::Diffuse, clear, &with),
        capture_pixel(Layer::Diffuse, clear, &without)
    );
}

#[test]
fn a_drawable_of_no_capture_layer_is_drawn_by_neither_capture_camera() {
    let clear = Rgba::rgb(43, 44, 47);
    let stray = Fragment { layer: 7, color: Rgba::rgb(1000, 1000, 1000) };
    let reserved = Fragment { layer: CAMERA_FINAL_IMAGE, color: Rgba::rgb(1000, 1000, 1000) };
    assert_eq!(capture_pixel(Layer::Diffuse, clear, &vec![stray, reserved]), clear);
    assert_eq!(capture_pixel(Layer::Light, clear, &vec![stray, reserved]), clear);
}

#[test]
fn frame_of_one_red_sprite_under_ambient_light_alone() {
    let ambient = color(0.3, 0.3, 0.3);
    let red = color(1.0, 0.0, 0.0);
    let out = frame_pixel(Rgba::rgb(43, 44, 47), ambient, &vec![sprite(red)]);
    assert_eq!((out.r, out.g, out.b), (milli(0.3), 0, 0));
    assert_eq!((out.r, out.g, out.b), (300, 0, 0));
}

#[test]
fn frame_of_one_red_sprite_is_the_same_at_every_pixel() {
    let ambient = color(0.3, 0.3, 0.3);
    let red = color(1.0, 0.0, 0.0);
    let width = 8;
    let height = 6;
    let mut diffuse = Vec::new();
    let mut lights = Vec::new();
    for _ in 0..width * height {
        diffuse.push(capture_pixel(Layer::Diffuse, Rgba::rgb(43, 44, 47), &vec![sprite(red)]));
        lights.push(capture_pixel(Layer::Light, ambient, &vec![sprite(red)]));
    }
    let image = present(&diffuse, &lights).unwrap();
    assert_eq!(image.len(), width * height);
    for pixel in image {
        assert_eq!((pixel.r, pixel.g, pixel.b), (300, 0, 0));
    }
}

#[test]
fn frame_with_a_light_over_a_sprite() {
    let ambient = color(0.3, 0.3, 0.3);
    let wall = color(0.5, 1.0, 0.0);
    let glow = Rgba::new(700, 200, 0, 0);
    let out = frame_pixel(Rgba::rgb(0, 0, 0), ambient, &vec![sprite(wall), light(glow)]);
    assert_eq!((out.r, out.g, out.b), (500, 500, 0));
}
