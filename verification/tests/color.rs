use lightmap::color::{add_channel, mul_channel, Rgba, UNIT};

#[test]
fn unit_is_a_thousand() {
    assert_eq!(UNIT, 1000);
}

#[test]
fn mul_channel_is_the_product_in_thousandths() {
    assert_eq!(mul_channel(300, 1000), 300);
    assert_eq!(mul_channel(1000, 1000), 1000);
    assert_eq!(mul_channel(500, 500), 250);
    assert_eq!(mul_channel(2000, 1500), 3000);
    assert_eq!(mul_channel(0, 777), 0);
    assert_eq!(mul_channel(777, 0), 0);
}

#[test]
fn mul_channel_rounds_down() {
    assert_eq!(mul_channel(999, 999), 998);
    assert_eq!(mul_channel(1, 999), 0);
    assert_eq!(mul_channel(333, 3), 0);
    assert_eq!(mul_channel(333, 4), 1);
}

#[test]
fn mul_channel_stops_at_the_largest_value() {
    assert_eq!(mul_channel(u32::MAX, u32::MAX), u32::MAX);
    assert_eq!(mul_channel(u32::MAX, 1001), u32::MAX);
    assert_eq!(mul_channel(u32::MAX, 1000), u32::MAX);
    assert_eq!(mul_channel(u32::MAX, 999), 4290672327);
}

#[test]
fn add_channel_adds_and_stops_at_the_largest_value() {
    assert_eq!(add_channel(300, 400), 700);
    assert_eq!(add_channel(0, 0), 0);
    assert_eq!(add_channel(u32::MAX, 1), u32::MAX);
    assert_eq!(add_channel(u32::MAX - 1, 1), u32::MAX);
    assert_eq!(add_channel(u32::MAX, u32::MAX), u32::MAX);
}

#[test]
fn colours_are_built_channel_by_channel() {
    assert_eq!(Rgba::new(1, 2, 3, 4), Rgba { r: 1, g: 2, b: 3, a: 4 });
    assert_eq!(Rgba::rgb(1, 2, 3), Rgba { r: 1, g: 2, b: 3, a: 1000 });
}

#[test]
fn coverage_is_the_opacity_up_to_one() {
    assert_eq!(Rgba::new(0, 0, 0, 0).coverage(), 0);
    assert_eq!(Rgba::new(0, 0, 0, 400).coverage(), 400);
    assert_eq!(Rgba::new(0, 0, 0, 1000).coverage(), 1000);
    assert_eq!(Rgba::new(0, 0, 0, 1001).coverage(), 1000);
    assert_eq!(Rgba::new(0, 0, 0, u32::MAX).coverage(), 1000);
}

#[test]
fn modulate_multiplies_channel_by_channel() {
    let a = Rgba::new(1000, 500, 250, 1000);
    let b = Rgba::new(300, 300, 2000, 500);
    assert_eq!(a.modulate(b), Rgba::new(300, 150, 500, 500));
    assert_eq!(b.modulate(a), Rgba::new(300, 150, 500, 500));
}

#[test]
fn modulate_by_white_changes_nothing() {
    let color = Rgba::new(123, 456, 7890, 321);
    assert_eq!(color.modulate(Rgba::rgb(1000, 1000, 1000)), color);
}

#[test]
fn modulate_by_black_gives_black() {
    let color = Rgba::new(123, 456, 7890, 1000);
    assert_eq!(color.modulate(Rgba::rgb(0, 0, 0)), Rgba::rgb(0, 0, 0));
}

#[test]
fn premultiplied_weighs_the_colour_by_the_opacity() {
    assert_eq!(Rgba::new(1000, 500, 200, 500).premultiplied(), Rgba::new(500, 250, 100, 500));
    assert_eq!(Rgba::new(1000, 500, 200, 1000).premultiplied(), Rgba::new(1000, 500, 200, 1000));
    assert_eq!(Rgba::new(1000, 500, 200, 0).premultiplied(), Rgba::new(0, 0, 0, 0));
    assert_eq!(Rgba::new(1000, 500, 200, 3000).premultiplied(), Rgba::new(1000, 500, 200, 1000));
}
