//! The three cameras of the pipeline: two that capture into the targets and
//! one that presents the composite.

use crate::layers::Layer;
use crate::settings::{Bloom, ClearColorConfig, LightmapPluginSettings};
use crate::targets::CameraTargets;
use vstd::prelude::*;

verus! {

/// Marks the camera that captures the diffuse sprites.
#[derive(Clone, Copy, Debug, PartialEq, Eq, Structural)]
pub struct SpriteCamera;

/// Marks the camera that captures the lights.
#[derive(Clone, Copy, Debug, PartialEq, Eq, Structural)]
pub struct LightCamera;

/// Marks both capture cameras, and not the present camera.
#[derive(Clone, Copy, Debug, PartialEq, Eq, Structural)]
pub struct AnyNormalCamera;

/// Which camera of the pipeline a camera is.
#[derive(Clone, Copy, Debug, PartialEq, Eq, Structural)]
pub enum CameraRole {
    /// Captures the diffuse sprites.
    Sprite,
    /// Captures the lights.
    Light,
    /// Presents the composite on the window.
    PostProcessing,
}

/// Render order of the capture cameras.
pub const CAPTURE_ORDER: isize = 0;

/// Render order of the present camera: after the capture cameras.
pub const PRESENT_ORDER: isize = 1;

impl CameraRole {
    /// The name that the camera goes by.
    pub fn name(self) -> (name: &'static str)
        ensures
            name@ == match self {
                CameraRole::Sprite => "sprite_camera"@,
                CameraRole::Light => "light_camera"@,
                CameraRole::PostProcessing => "post_processing_camera"@,
            },
    {
        match self {
            CameraRole::Sprite => "sprite_camera",
            CameraRole::Light => "light_camera",
            CameraRole::PostProcessing => "post_processing_camera",
        }
    }

    /// The layer whose drawables the camera draws.
    pub open spec fn spec_layer(self) -> Layer {
        match self {
            CameraRole::Sprite => Layer::Diffuse,
            CameraRole::Light => Layer::Light,
            CameraRole::PostProcessing => Layer::Presentation,
        }
    }

    /// The layer whose drawables the camera draws.
    pub fn layer(self) -> (layer: Layer)
        ensures
            layer == self.spec_layer(),
    {
        match self {
            CameraRole::Sprite => Layer::Diffuse,
            CameraRole::Light => Layer::Light,
            CameraRole::PostProcessing => Layer::Presentation,
        }
    }
}

impl SpriteCamera {
    /// Whether the camera of `role` wears this mark.
    pub fn marks(role: CameraRole) -> (marked: bool)
        ensures
            marked == (role == CameraRole::Sprite),
    {
        role == CameraRole::Sprite
    }
}

impl LightCamera {
    /// Whether the camera of `role` wears this mark.
    pub fn marks(role: CameraRole) -> (marked: bool)
        ensures
            marked == (role == CameraRole::Light),
    {
        role == CameraRole::Light
    }
}

impl AnyNormalCamera {
    /// Whether the camera of `role` wears this mark.
    pub fn marks(role: CameraRole) -> (marked: bool)
        ensures
            marked == (role == CameraRole::Sprite || role == CameraRole::Light),
    {
        role == CameraRole::Sprite || role == CameraRole::Light
    }
}

/// Where a camera puts what it draws.
#[derive(Clone, Copy, Debug, PartialEq, Eq, Structural)]
pub enum CameraOutput {
    /// The window surface.
    Window,
    /// The image of this identity, one image pixel per logical pixel.
    Image(u128),
}

/// One camera: one rendering pass.
#[derive(Clone, Copy, Debug, PartialEq, Eq, Structural)]
pub struct Camera {
    /// Which camera of the pipeline it is.
    pub role: CameraRole,
    /// Its place in the sequence of passes: lower runs earlier.
    pub order: isize,
    /// Whether it draws with high dynamic range.
    pub hdr: bool,
    /// Where it puts what it draws.
    pub target: CameraOutput,
    /// What it clears its target to.
    pub clear_color: ClearColorConfig,
    /// The layer whose drawables it draws.
    pub layer: Layer,
    /// Bloom over what it has drawn, if any.
    pub bloom: Option<Bloom>,
}

/// The two capture cameras.
#[derive(Clone, Copy, Debug, PartialEq, Eq, Structural)]
pub struct CaptureCameras {
    /// Draws the diffuse layer into the sprite target.
    pub sprite: Camera,
    /// Draws the light layer into the light target.
    pub light: Camera,
}

/// The camera that draws the diffuse layer into the target of identity
/// `target`, clearing as `settings` say.
pub open spec fn sprite_camera(target: u128, settings: LightmapPluginSettings) -> Camera {
    Camera {
        role: CameraRole::Sprite,
        order: CAPTURE_ORDER,
        hdr: true,
        target: CameraOutput::Image(target),
        clear_color: settings.clear_color,
        layer: Layer::Diffuse,
        bloom: None,
    }
}

/// The camera that draws the light layer into the target of identity
/// `target`, clearing to the ambient light of `settings`.
pub open spec fn light_camera(target: u128, settings: LightmapPluginSettings) -> Camera {
    Camera {
        role: CameraRole::Light,
        order: CAPTURE_ORDER,
        hdr: true,
        target: CameraOutput::Image(target),
        clear_color: ClearColorConfig::Custom(settings.ambient_light),
        layer: Layer::Light,
        bloom: None,
    }
}

/// The camera that draws the presentation layer onto the window, after the
/// capture cameras, with the bloom of `settings`.
pub open spec fn present_camera(settings: LightmapPluginSettings) -> Camera {
    Camera {
        role: CameraRole::PostProcessing,
        order: PRESENT_ORDER,
        hdr: true,
        target: CameraOutput::Window,
        clear_color: ClearColorConfig::Default,
        layer: Layer::Presentation,
        bloom: settings.bloom,
    }
}

/// Sets up the two capture cameras over `targets`: the sprite camera on the
/// diffuse layer, cleared as configured, and the light camera on the light
/// layer, cleared to the ambient light.
pub fn setup_sprite_camera(targets: &CameraTargets, settings: &LightmapPluginSettings) -> (cameras:
    CaptureCameras)
    ensures
        cameras.sprite == sprite_camera(targets.spec_sprite_target().spec_id(), *settings),
        cameras.light == light_camera(targets.spec_light_target().spec_id(), *settings),
{
    let sprite = Camera {
        role: CameraRole::Sprite,
        order: CAPTURE_ORDER,
        hdr: true,
        target: CameraOutput::Image(targets.sprite_target().id()),
        clear_color: settings.clear_color,
        layer: CameraRole::Sprite.layer(),
        bloom: None,
    };
    let light = Camera {
        role: CameraRole::Light,
        order: CAPTURE_ORDER,
        hdr: true,
        target: CameraOutput::Image(targets.light_target().id()),
        clear_color: ClearColorConfig::Custom(settings.ambient_light),
        layer: CameraRole::Light.layer(),
        bloom: None,
    };
    CaptureCameras { sprite, light }
}

/// The present pass runs after both capture passes, whatever the settings
/// and the targets.
pub proof fn lemma_present_runs_last(sprite: u128, light: u128, settings: LightmapPluginSettings)
    ensures
        sprite_camera(sprite, settings).order < present_camera(settings).order,
        light_camera(light, settings).order < present_camera(settings).order,
{
}

/// Each camera draws its own layer and no other: no two cameras of the
/// pipeline draw the same drawable.
pub proof fn lemma_cameras_on_distinct_layers(
    sprite: u128,
    light: u128,
    settings: LightmapPluginSettings,
    tag: usize,
)
    ensures
        !(sprite_camera(sprite, settings).layer.spec_observes(tag) && light_camera(
            light,
            settings,
        ).layer.spec_observes(tag)),
        !(sprite_camera(sprite, settings).layer.spec_observes(tag) && present_camera(
            settings,
        ).layer.spec_observes(tag)),
        !(light_camera(light, settings).layer.spec_observes(tag) && present_camera(
            settings,
        ).layer.spec_observes(tag)),
{
}

} // verus!
