use lightmap::window::{whole_pixels, LogicalSize, ScaleFactor, Window, WindowResized};

fn ratio(numer: u32, denom: u32) -> ScaleFactor {
    ScaleFactor::new(numer, denom).unwrap()
}

#[test]
fn scale_factor_needs_two_positive_parts() {
    assert!(ScaleFactor::new(0, 1).is_none());
    assert!(ScaleFactor::new(1, 0).is_none());
    assert!(ScaleFactor::new(0, 0).is_none());
    let scale = ScaleFactor::new(3, 2).unwrap();
    assert_eq!((scale.numer(), scale.denom()), (3, 2));
}

#[test]
fn scale_factor_one_is_one_over_one() {
    let scale = ScaleFactor::one();
    assert_eq!((scale.numer(), scale.denom()), (1, 1));
    assert_eq!(scale, ratio(1, 1));
}

#[test]
fn scale_factor_from_bits_of_one() {
    let scale = ScaleFactor::from_bits(1.0_f32.to_bits()).unwrap();
    assert_eq!((scale.numer(), scale.denom()), (1, 1));
}

#[test]
fn scale_factor_from_bits_is_exact_and_in_lowest_terms() {
    let cases: [(f32, u32, u32); 8] = [
        (1.5, 3, 2),
        (1.25, 5, 4),
        (2.0, 2, 1),
        (0.5, 1, 2),
        (3.0, 3, 1),
        (1.75, 7, 4),
        (256.0, 256, 1),
        (0.00390625, 1, 256),
    ];
    for (value, numer, denom) in cases {
        let scale = ScaleFactor::from_bits(value.to_bits()).unwrap();
        assert_eq!((scale.numer(), scale.denom()), (numer, denom));
    }
}

#[test]
fn scale_factor_from_bits_of_three_tenths() {
    let scale = ScaleFactor::from_bits(0.3_f32.to_bits()).unwrap();
    assert_eq!((scale.numer(), scale.denom()), (5033165, 16777216));
    assert_eq!(scale.numer() as f32 / scale.denom() as f32, 0.3_f32);
}

#[test]
fn scale_factor_from_bits_at_the_ends_of_its_range() {
    let largest = ScaleFactor::from_bits(0x4f7f_ffff).unwrap();
    assert_eq!((largest.numer(), largest.denom()), (0xffff_ff00, 1));
    let smallest = ScaleFactor::from_bits(0x3b80_0000).unwrap();
    assert_eq!((smallest.numer(), smallest.denom()), (1, 256));
    let odd = ScaleFactor::from_bits(0x3b80_0001).unwrap();
    assert_eq!((odd.numer(), odd.denom()), (0x80_0001, 0x8000_0000));
    assert!(ScaleFactor::from_bits(0x4f80_0000).is_none());
    assert!(ScaleFactor::from_bits(0x3b7f_ffff).is_none());
}

#[test]
fn scale_factor_from_bits_refuses_what_is_no_positive_ratio() {
    assert!(ScaleFactor::from_bits(0.0_f32.to_bits()).is_none());
    assert!(ScaleFactor::from_bits((-1.0_f32).to_bits()).is_none());
    assert!(ScaleFactor::from_bits(f32::NAN.to_bits()).is_none());
    assert!(ScaleFactor::from_bits(f32::INFINITY.to_bits()).is_none());
    assert!(ScaleFactor::from_bits(f32::MIN_POSITIVE.to_bits()).is_none());
    assert!(ScaleFactor::from_bits(f32::MAX.to_bits()).is_none());
    assert!(ScaleFactor::from_bits(1).is_none());
}

#[test]
fn whole_pixels_divides_by_the_scale_factor() {
    assert_eq!(whole_pixels(800, ratio(1, 1)), 800);
    assert_eq!(whole_pixels(800, ratio(2, 1)), 400);
    assert_eq!(whole_pixels(800, ratio(1, 2)), 1600);
    assert_eq!(whole_pixels(1920, ratio(3, 2)), 1280);
    assert_eq!(whole_pixels(1000, ratio(5, 4)), 800);
}

#[test]
fn whole_pixels_rounds_down() {
    assert_eq!(whole_pixels(801, ratio(2, 1)), 400);
    assert_eq!(whole_pixels(1, ratio(2, 1)), 0);
    assert_eq!(whole_pixels(1000, ratio(3, 1)), 333);
    assert_eq!(whole_pixels(0, ratio(3, 2)), 0);
}

#[test]
fn whole_pixels_of_the_largest_window_at_the_smallest_scale() {
    assert_eq!(whole_pixels(u32::MAX, ratio(1, u32::MAX)), (u32::MAX as u64) * (u32::MAX as u64));
    assert_eq!(whole_pixels(u32::MAX, ratio(u32::MAX, 1)), 1);
}

#[test]
fn logical_size_of_a_window() {
    let window = Window { physical_width: 1600, physical_height: 1200, scale_factor: ratio(2, 1) };
    let size = window.logical_size();
    assert_eq!(
        size,
        LogicalSize { physical_width: 1600, physical_height: 1200, scale_factor: ratio(2, 1) }
    );
    assert_eq!(size.pixel_width(), 800);
    assert_eq!(size.pixel_height(), 600);
    assert!(!size.is_empty());
}

#[test]
fn logical_size_of_a_resize_signal() {
    let size = WindowResized { width: 750, height: 500 }.logical_size(ratio(5, 4));
    assert_eq!(size.pixel_width(), 600);
    assert_eq!(size.pixel_height(), 400);
}

#[test]
fn logical_size_without_a_whole_pixel_is_empty() {
    assert!(WindowResized { width: 0, height: 600 }.logical_size(ratio(1, 1)).is_empty());
    assert!(WindowResized { width: 800, height: 0 }.logical_size(ratio(1, 1)).is_empty());
    assert!(WindowResized { width: 1, height: 600 }.logical_size(ratio(2, 1)).is_empty());
    assert!(!WindowResized { width: 2, height: 2 }.logical_size(ratio(2, 1)).is_empty());
}
