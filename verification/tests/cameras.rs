use lightmap::cameras::{
    setup_sprite_camera, AnyNormalCamera, CameraOutput, CameraRole, LightCamera, SpriteCamera,
    CAPTURE_ORDER, PRESENT_ORDER,
};
use lightmap::color::Rgba;
use lightmap::layers::Layer;
use lightmap::settings::{Bloom, ClearColorConfig, LightmapPluginSettings};
use lightmap::targets::{CameraTargets, LIGHT_TARGET_ID, SPRITE_TARGET_ID};

#[test]
fn camera_names() {
    assert_eq!(CameraRole::Sprite.name(), "sprite_camera");
    assert_eq!(CameraRole::Light.name(), "light_camera");
    assert_eq!(CameraRole::PostProcessing.name(), "post_processing_camera");
}

#[test]
fn camera_layers() {
    assert_eq!(CameraRole::Sprite.layer(), Layer::Diffuse);
    assert_eq!(CameraRole::Light.layer(), Layer::Light);
    assert_eq!(CameraRole::PostProcessing.layer(), Layer::Presentation);
}

#[test]
fn camera_marks() {
    assert!(SpriteCamera::marks(CameraRole::Sprite));
    assert!(!SpriteCamera::marks(CameraRole::Light));
    assert!(!SpriteCamera::marks(CameraRole::PostProcessing));
    assert!(LightCamera::marks(CameraRole::Light));
    assert!(!LightCamera::marks(CameraRole::Sprite));
    assert!(!LightCamera::marks(CameraRole::PostProcessing));
    assert!(AnyNormalCamera::marks(CameraRole::Sprite));
    assert!(AnyNormalCamera::marks(CameraRole::Light));
    assert!(!AnyNormalCamera::marks(CameraRole::PostProcessing));
}

#[test]
fn present_order_is_after_capture_order() {
    assert_eq!(CAPTURE_ORDER, 0);
    assert_eq!(PRESENT_ORDER, 1);
    assert!(CAPTURE_ORDER < PRESENT_ORDER);
}

#[test]
fn sprite_camera_draws_the_diffuse_layer_into_the_sprite_target() {
    let targets = CameraTargets::create(64, 48).unwrap();
    let settings = LightmapPluginSettings::default();
    let cameras = setup_sprite_camera(&targets, &settings);
    assert_eq!(cameras.sprite.role, CameraRole::Sprite);
    assert_eq!(cameras.sprite.order, CAPTURE_ORDER);
    assert!(cameras.sprite.hdr);
    assert_eq!(cameras.sprite.target, CameraOutput::Image(SPRITE_TARGET_ID));
    assert_eq!(cameras.sprite.clear_color, ClearColorConfig::Default);
    assert_eq!(cameras.sprite.layer, Layer::Diffuse);
    assert_eq!(cameras.sprite.bloom, None);
}

#[test]
fn light_camera_draws_the_light_layer_over_the_ambient_light() {
    let targets = CameraTargets::create(64, 48).unwrap();
    let settings = LightmapPluginSettings::default();
    let cameras = setup_sprite_camera(&targets, &settings);
    assert_eq!(cameras.light.role, CameraRole::Light);
    assert_eq!(cameras.light.order, CAPTURE_ORDER);
    assert!(cameras.light.hdr);
    assert_eq!(cameras.light.target, CameraOutput::Image(LIGHT_TARGET_ID));
    assert_eq!(cameras.light.clear_color, ClearColorConfig::Custom(Rgba::rgb(300, 300, 300)));
    assert_eq!(cameras.light.layer, Layer::Light);
    assert_eq!(cameras.light.bloom, None);
}

#[test]
fn capture_cameras_follow_the_settings() {
    let targets = CameraTargets::create(64, 48).unwrap();
    let settings = LightmapPluginSettings {
        clear_color: ClearColorConfig::Custom(Rgba::rgb(10, 20, 30)),
        ambient_light: Rgba::rgb(100, 150, 200),
        bloom: Some(Bloom { intensity: 150, threshold: 600 }),
    };
    let cameras = setup_sprite_camera(&targets, &settings);
    assert_eq!(cameras.sprite.clear_color, ClearColorConfig::Custom(Rgba::rgb(10, 20, 30)));
    assert_eq!(cameras.light.clear_color, ClearColorConfig::Custom(Rgba::rgb(100, 150, 200)));
    assert_eq!(cameras.sprite.bloom, None);
    assert_eq!(cameras.light.bloom, None);
}
