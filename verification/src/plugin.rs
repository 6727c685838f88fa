//! The compositor itself: what is set up before the first frame, and how it
//! follows the window when the window is resized.

use crate::cameras::{
    present_camera, setup_sprite_camera, sprite_camera, light_camera, Camera, CaptureCameras,
    CameraRole, PRESENT_ORDER,
};
use crate::layers::Layer;
use crate::settings::LightmapPluginSettings;
use crate::targets::{
    allocatable, blank_pixels, CameraTargets, TargetError, LIGHT_TARGET_ID, SPRITE_TARGET_ID,
};
use crate::window::{
    lemma_unit_ratio_keeps_pixels, logical_pixels, LogicalSize, ScaleFactor, Window, WindowResized,
};
use vstd::prelude::*;

verus! {

/// Identity of the mesh of the full-screen quad.
pub const POST_PROCESSING_QUAD: u128 = 0x36f3e6a8_0837_4544_9ca9_05dfd13ac6b8;

/// Identity of the material of the full-screen quad.
pub const POST_PROCESSING_MATERIAL: u128 = 0xf9e193d4_d737_433d_820e_9e42b1c70af9;

/// Depth at which the full-screen quad stands, in thousandths.
pub const QUAD_DEPTH: u32 = 1500;

/// The rectangle that the present pass draws: exactly the window's logical
/// size.
#[derive(Clone, Copy, Debug, PartialEq, Eq, Structural)]
pub struct QuadMesh {
    /// Width and height of the rectangle.
    pub size: LogicalSize,
}

/// One texture input of the material: the image it samples, and the size
/// that image had when it was bound.
#[derive(Clone, Copy, Debug, PartialEq, Eq, Structural)]
pub struct TextureBinding {
    /// Identity of the image.
    pub image: u128,
    /// Width of the image in pixels.
    pub width: u32,
    /// Height of the image in pixels.
    pub height: u32,
}

/// The material of the full-screen quad: it samples the two targets and
/// gives their product. A binding cannot be changed in place, so the material
/// is made anew whenever the targets are.
#[derive(Clone, Copy, Debug, PartialEq, Eq, Structural)]
pub struct BlendTexturesMaterial {
    /// The sprite target.
    pub texture1: TextureBinding,
    /// The light target.
    pub texture2: TextureBinding,
}

impl BlendTexturesMaterial {
    /// The material over two targets of the given dimensions.
    pub open spec fn spec_over(dims: (u32, u32)) -> BlendTexturesMaterial {
        BlendTexturesMaterial {
            texture1: TextureBinding { image: SPRITE_TARGET_ID, width: dims.0, height: dims.1 },
            texture2: TextureBinding { image: LIGHT_TARGET_ID, width: dims.0, height: dims.1 },
        }
    }

    /// The material that samples `targets`.
    pub fn over(targets: &CameraTargets) -> (material: BlendTexturesMaterial)
        ensures
            material == BlendTexturesMaterial::spec_over(targets.dims()),
            material.texture1.image == targets.spec_sprite_target().spec_id(),
            material.texture2.image == targets.spec_light_target().spec_id(),
    {
        proof {
            use_type_invariant(targets);
        }
        BlendTexturesMaterial {
            texture1: TextureBinding {
                image: targets.sprite_target().id(),
                width: targets.width(),
                height: targets.height(),
            },
            texture2: TextureBinding {
                image: targets.light_target().id(),
                width: targets.width(),
                height: targets.height(),
            },
        }
    }

    /// Where the host finds the fragment program of the material.
    pub fn fragment_shader() -> (path: &'static str)
        ensures
            path@ == "lightmap_shader/blend_mult_textures.wgsl"@,
    {
        "lightmap_shader/blend_mult_textures.wgsl"
    }
}

/// The drawable that carries the full-screen quad.
#[derive(Clone, Copy, Debug, PartialEq, Eq, Structural)]
pub struct PostProcessingQuad {
    /// Identity of its mesh.
    pub mesh: u128,
    /// Identity of its material.
    pub material: u128,
    /// Its depth, in thousandths.
    pub depth: u32,
    /// The layer it is drawn on.
    pub layer: Layer,
}

impl PostProcessingQuad {
    /// The one such drawable: the quad mesh with the blend material, on the
    /// presentation layer.
    pub open spec fn spec_new() -> PostProcessingQuad {
        PostProcessingQuad {
            mesh: POST_PROCESSING_QUAD,
            material: POST_PROCESSING_MATERIAL,
            depth: QUAD_DEPTH,
            layer: Layer::Presentation,
        }
    }

    /// The one such drawable.
    pub fn new() -> (quad: PostProcessingQuad)
        ensures
            quad == PostProcessingQuad::spec_new(),
    {
        PostProcessingQuad {
            mesh: POST_PROCESSING_QUAD,
            material: POST_PROCESSING_MATERIAL,
            depth: QUAD_DEPTH,
            layer: Layer::Presentation,
        }
    }
}

/// Why the compositor could not be set up.
#[derive(Clone, Copy, Debug, PartialEq, Eq, Structural)]
pub enum SetupError {
    /// There is no primary window.
    NoWindow,
    /// The targets for the window's size cannot be allocated.
    TargetAllocation,
}

/// Why a resize could not be followed.
#[derive(Clone, Copy, Debug, PartialEq, Eq, Structural)]
pub enum ResizeError {
    /// The targets for the new size cannot be allocated.
    TargetAllocation,
}

/// Whether targets that cover `size` can be made.
pub open spec fn fits(size: LogicalSize) -> bool {
    &&& size.spec_pixel_width() <= u32::MAX
    &&& size.spec_pixel_height() <= u32::MAX
    &&& allocatable(size.spec_pixel_width() as u32, size.spec_pixel_height() as u32)
}

/// The dimensions of targets that cover `size`: its whole pixels.
pub open spec fn pixel_dims(size: LogicalSize) -> (u32, u32) {
    (size.spec_pixel_width() as u32, size.spec_pixel_height() as u32)
}

/// What depends on the window's size: the targets' dimensions, the quad and
/// the material.
pub struct Surfaces {
    /// Dimensions of both targets.
    pub dims: (u32, u32),
    /// The full-screen quad.
    pub quad: QuadMesh,
    /// The material of the quad.
    pub material: BlendTexturesMaterial,
}

impl Surfaces {
    /// The surfaces of a window of logical size `size`.
    pub open spec fn covering(size: LogicalSize) -> Surfaces {
        Surfaces {
            dims: pixel_dims(size),
            quad: QuadMesh { size },
            material: BlendTexturesMaterial::spec_over(pixel_dims(size)),
        }
    }
}

/// The surfaces after one resize signal: unchanged where the new size covers
/// no whole pixel, an error where targets of the new size cannot be made, and
/// else the surfaces of the new size.
pub open spec fn resized(before: Surfaces, scale: ScaleFactor, event: WindowResized) -> Result<
    Surfaces,
    ResizeError,
> {
    let size = event.spec_logical_size(scale);
    if size.spec_is_empty() {
        Ok(before)
    } else if !fits(size) {
        Err(ResizeError::TargetAllocation)
    } else {
        Ok(Surfaces::covering(size))
    }
}

/// The surfaces after a sequence of resize signals, each taken in order, and
/// whether one of them failed. Nothing after a failure is looked at.
pub open spec fn resized_all(before: Surfaces, scale: ScaleFactor, events: Seq<WindowResized>) -> (
    Surfaces,
    bool,
)
    decreases events.len(),
{
    if events.len() == 0 {
        (before, false)
    } else {
        match resized(before, scale, events[0]) {
            Ok(after) => resized_all(after, scale, events.drop_first()),
            Err(_) => (before, true),
        }
    }
}

/// What the set-up of the present pass gives: the quad, the targets, the
/// material over them, the drawable that carries the quad, and the camera
/// that draws it.
pub struct PresentPass {
    /// The full-screen quad.
    pub quad: QuadMesh,
    /// The two targets.
    pub targets: CameraTargets,
    /// The material of the quad.
    pub material: BlendTexturesMaterial,
    /// The drawable that carries the quad.
    pub entity: PostProcessingQuad,
    /// The present camera.
    pub camera: Camera,
}

impl PresentPass {
    /// What of the pass depends on the window's size.
    pub open spec fn surfaces(&self) -> Surfaces {
        Surfaces { dims: self.targets.dims(), quad: self.quad, material: self.material }
    }
}

/// Makes the targets that cover `size`.
fn targets_covering(size: &LogicalSize) -> (made: Result<CameraTargets, TargetError>)
    ensures
        made is Ok <==> fits(*size),
        made matches Ok(targets) ==> {
            &&& targets.wf()
            &&& targets.dims() == pixel_dims(*size)
            &&& targets.spec_sprite_target().pixels() == blank_pixels(
                pixel_dims(*size).0,
                pixel_dims(*size).1,
            )
            &&& targets.spec_light_target().pixels() == blank_pixels(
                pixel_dims(*size).0,
                pixel_dims(*size).1,
            )
        },
        made matches Err(e) ==> e == TargetError::AllocationFailed,
{
    let width: u64 = size.pixel_width();
    let height: u64 = size.pixel_height();
    if width > u32::MAX as u64 || height > u32::MAX as u64 {
        return Err(TargetError::AllocationFailed);
    }
    CameraTargets::create(width as u32, height as u32)
}

/// Sets up the present pass for the primary window: the quad of the window's
/// logical size, the two targets that cover it, the material over them, and
/// the camera that draws the quad onto the window after the capture passes.
///
/// Fails where there is no window, and where the targets cannot be made.
pub fn setup_post_processing_camera(
    window: Option<&Window>,
    settings: &LightmapPluginSettings,
) -> (made: Result<PresentPass, SetupError>)
    ensures
        window is None ==> made == Err::<PresentPass, SetupError>(SetupError::NoWindow),
        window matches Some(w) ==> match made {
            Ok(pass) => {
                &&& fits(w.spec_logical_size())
                &&& pass.surfaces() == Surfaces::covering(w.spec_logical_size())
                &&& pass.targets.wf()
                &&& pass.targets.spec_sprite_target().pixels() == blank_pixels(
                    pass.targets.dims().0,
                    pass.targets.dims().1,
                )
                &&& pass.targets.spec_light_target().pixels() == blank_pixels(
                    pass.targets.dims().0,
                    pass.targets.dims().1,
                )
                &&& pass.entity == PostProcessingQuad::spec_new()
                &&& pass.camera == present_camera(*settings)
            },
            Err(e) => !fits(w.spec_logical_size()) && e == SetupError::TargetAllocation,
        },
{
    let window = match window {
        Some(window) => window,
        None => {
            return Err(SetupError::NoWindow);
        },
    };
    let primary_size = window.logical_size();
    let quad = QuadMesh { size: primary_size };
    let targets = match targets_covering(&primary_size) {
        Ok(targets) => targets,
        Err(_) => {
            return Err(SetupError::TargetAllocation);
        },
    };
    let material = BlendTexturesMaterial::over(&targets);
    let entity = PostProcessingQuad::new();
    let camera = Camera {
        role: CameraRole::PostProcessing,
        order: PRESENT_ORDER,
        hdr: true,
        target: crate::cameras::CameraOutput::Window,
        clear_color: crate::settings::ClearColorConfig::Default,
        layer: entity.layer,
        bloom: settings.bloom,
    };
    Ok(PresentPass { quad, targets, material, entity, camera })
}

/// The compositor: its settings, the targets, the quad with its material,
/// and the three cameras. The parts that depend on the window's size are
/// replaced together, so that no frame sees targets of two sizes or a
/// material bound to targets that are gone.
pub struct LightmapPlugin {
    settings: LightmapPluginSettings,
    targets: CameraTargets,
    quad: QuadMesh,
    material: BlendTexturesMaterial,
    entity: PostProcessingQuad,
    capture: CaptureCameras,
    present: Camera,
}

impl LightmapPlugin {
    /// The settings that the compositor was built with.
    pub closed spec fn spec_settings(&self) -> LightmapPluginSettings {
        self.settings
    }

    /// The two targets.
    pub closed spec fn spec_targets(&self) -> CameraTargets {
        self.targets
    }

    /// The full-screen quad.
    pub closed spec fn spec_quad(&self) -> QuadMesh {
        self.quad
    }

    /// The material of the quad.
    pub closed spec fn spec_material(&self) -> BlendTexturesMaterial {
        self.material
    }

    /// The drawable that carries the quad.
    pub closed spec fn spec_entity(&self) -> PostProcessingQuad {
        self.entity
    }

    /// The two capture cameras.
    pub closed spec fn spec_capture(&self) -> CaptureCameras {
        self.capture
    }

    /// The present camera.
    pub closed spec fn spec_present(&self) -> Camera {
        self.present
    }

    /// What of the compositor depends on the window's size.
    pub open spec fn surfaces(&self) -> Surfaces {
        Surfaces {
            dims: self.spec_targets().dims(),
            quad: self.spec_quad(),
            material: self.spec_material(),
        }
    }

    /// The parts of the compositor agree: the targets are a sound pair of
    /// blank images that cover the quad, the material is bound to them, and
    /// the cameras are those of the settings. Every compositor that a program
    /// holds is of this kind.
    #[verifier::type_invariant]
    pub open spec fn wf(&self) -> bool {
        &&& self.spec_targets().wf()
        &&& self.spec_targets().spec_sprite_target().pixels() == blank_pixels(
            self.spec_targets().dims().0,
            self.spec_targets().dims().1,
        )
        &&& self.spec_targets().spec_light_target().pixels() == blank_pixels(
            self.spec_targets().dims().0,
            self.spec_targets().dims().1,
        )
        &&& self.spec_quad().size.wf()
        &&& fits(self.spec_quad().size)
        &&& self.surfaces() == Surfaces::covering(self.spec_quad().size)
        &&& self.spec_entity() == PostProcessingQuad::spec_new()
        &&& self.spec_capture().sprite == sprite_camera(SPRITE_TARGET_ID, self.spec_settings())
        &&& self.spec_capture().light == light_camera(LIGHT_TARGET_ID, self.spec_settings())
        &&& self.spec_present() == present_camera(self.spec_settings())
    }

    /// Builds the compositor for the primary window: first the present pass
    /// with the targets, then the two capture cameras over those targets.
    ///
    /// Fails where there is no window, and where the targets cannot be made.
    pub fn build(window: Option<&Window>, settings: LightmapPluginSettings) -> (made: Result<
        LightmapPlugin,
        SetupError,
    >)
        ensures
            window is None ==> made is Err && made->Err_0 == SetupError::NoWindow,
            window matches Some(w) ==> match made {
                Ok(plugin) => {
                    &&& fits(w.spec_logical_size())
                    &&& plugin.wf()
                    &&& plugin.spec_settings() == settings
                    &&& plugin.surfaces() == Surfaces::covering(w.spec_logical_size())
                },
                Err(e) => !fits(w.spec_logical_size()) && e == SetupError::TargetAllocation,
            },
    {
        let pass = match setup_post_processing_camera(window, &settings) {
            Ok(pass) => pass,
            Err(e) => {
                return Err(e);
            },
        };
        proof {
            use_type_invariant(&pass.targets);
            use_type_invariant(&pass.quad.size.scale_factor);
        }
        let capture = setup_sprite_camera(&pass.targets, &settings);
        Ok(
            LightmapPlugin {
                settings,
                targets: pass.targets,
                quad: pass.quad,
                material: pass.material,
                entity: pass.entity,
                capture,
                present: pass.camera,
            },
        )
    }

    /// Follows one resize signal in a window of scale factor `scale`.
    ///
    /// A new size that covers no whole pixel is passed over. Otherwise the
    /// quad, both targets and the material are replaced together by those of
    /// the new size, or, where the targets cannot be made, nothing is changed
    /// and the failure is returned.
    pub fn resize(&mut self, scale: ScaleFactor, event: &WindowResized) -> (done: Result<
        (),
        ResizeError,
    >)
        ensures
            final(self).wf(),
            final(self).spec_settings() == old(self).spec_settings(),
            match resized(old(self).surfaces(), scale, *event) {
                Ok(after) => done is Ok && final(self).surfaces() == after,
                Err(e) => done == Err::<(), ResizeError>(e) && final(self).surfaces() == old(
                    self,
                ).surfaces(),
            },
    {
        proof {
            use_type_invariant(&*self);
            use_type_invariant(&scale);
        }
        let primary_size = event.logical_size(scale);
        if primary_size.is_empty() {
            return Ok(());
        }
        let quad = QuadMesh { size: primary_size };
        let targets = match targets_covering(&primary_size) {
            Ok(targets) => targets,
            Err(_) => {
                return Err(ResizeError::TargetAllocation);
            },
        };
        let material = BlendTexturesMaterial::over(&targets);
        *self = LightmapPlugin {
            settings: self.settings,
            targets,
            quad,
            material,
            entity: self.entity,
            capture: self.capture,
            present: self.present,
        };
        Ok(())
    }

    /// The cameras of one frame, in the order in which their passes run: the
    /// diffuse pass, the light pass, then the present pass that samples what
    /// the two have drawn. There are none where the window covers no whole
    /// pixel: such a frame is not rendered.
    pub fn frame_passes(&self) -> (passes: Vec<Camera>)
        ensures
            self.spec_quad().size.spec_is_empty() ==> passes@ == Seq::<Camera>::empty(),
            !self.spec_quad().size.spec_is_empty() ==> passes@ == seq![
                self.spec_capture().sprite,
                self.spec_capture().light,
                self.spec_present(),
            ],
            forall|i: int, j: int|
                0 <= i < j < passes@.len() ==> passes@[i].order <= passes@[j].order,
            forall|i: int|
                0 <= i < passes@.len() - 1 ==> passes@[i].order < passes@.last().order,
    {
        proof {
            use_type_invariant(self);
        }
        let mut passes: Vec<Camera> = Vec::new();
        if self.quad.size.is_empty() {
            assert(passes@ =~= Seq::<Camera>::empty());
            return passes;
        }
        passes.push(self.capture.sprite);
        passes.push(self.capture.light);
        passes.push(self.present);
        assert(passes@ =~= seq![self.capture.sprite, self.capture.light, self.present]);
        passes
    }

    /// The settings that the compositor was built with.
    pub fn settings(&self) -> (settings: &LightmapPluginSettings)
        ensures
            *settings == self.spec_settings(),
    {
        &self.settings
    }

    /// The two targets.
    pub fn targets(&self) -> (targets: &CameraTargets)
        ensures
            *targets == self.spec_targets(),
    {
        &self.targets
    }

    /// The full-screen quad.
    pub fn quad(&self) -> (quad: &QuadMesh)
        ensures
            *quad == self.spec_quad(),
    {
        &self.quad
    }

    /// The material of the quad.
    pub fn material(&self) -> (material: &BlendTexturesMaterial)
        ensures
            *material == self.spec_material(),
    {
        &self.material
    }

    /// The drawable that carries the quad.
    pub fn entity(&self) -> (entity: &PostProcessingQuad)
        ensures
            *entity == self.spec_entity(),
    {
        &self.entity
    }

    /// The camera of the diffuse pass.
    pub fn sprite_camera(&self) -> (camera: &Camera)
        ensures
            *camera == self.spec_capture().sprite,
    {
        &self.capture.sprite
    }

    /// The camera of the light pass.
    pub fn light_camera(&self) -> (camera: &Camera)
        ensures
            *camera == self.spec_capture().light,
    {
        &self.capture.light
    }

    /// The camera of the present pass.
    pub fn present_camera(&self) -> (camera: &Camera)
        ensures
            *camera == self.spec_present(),
    {
        &self.present
    }
}

/// Follows the resize signals of one tick, each in order. `window` is the
/// primary window, or nothing where it is gone: then the signals are dropped
/// and nothing changes.
///
/// Stops at the first signal whose targets cannot be made and returns the
/// failure; what the signals before it brought about stays.
pub fn on_resize_window(
    plugin: &mut LightmapPlugin,
    window: Option<&Window>,
    events: &Vec<WindowResized>,
) -> (done: Result<(), ResizeError>)
    ensures
        final(plugin).wf(),
        final(plugin).spec_settings() == old(plugin).spec_settings(),
        window is None ==> done is Ok && final(plugin).surfaces() == old(plugin).surfaces(),
        window matches Some(w) ==> {
            let (after, failed) = resized_all(old(plugin).surfaces(), w.scale_factor, events@);
            &&& final(plugin).surfaces() == after
            &&& failed ==> done == Err::<(), ResizeError>(ResizeError::TargetAllocation)
            &&& !failed ==> done is Ok
        },
{
    proof {
        use_type_invariant(&*plugin);
    }
    let scale = match window {
        Some(primary) => primary.scale_factor,
        None => {
            return Ok(());
        },
    };
    let mut i: usize = 0;
    assert(events@.skip(0) =~= events@);
    while i < events.len()
        invariant
            i <= events.len(),
            window matches Some(w) && w.scale_factor == scale,
            plugin.wf(),
            plugin.spec_settings() == old(plugin).spec_settings(),
            resized_all(old(plugin).surfaces(), scale, events@) == resized_all(
                plugin.surfaces(),
                scale,
                events@.skip(i as int),
            ),
        decreases events.len() - i,
    {
        let ghost rest = events@.skip(i as int);
        assert(rest[0] == events@[i as int]);
        assert(rest.drop_first() =~= events@.skip(i + 1));
        match plugin.resize(scale, &events[i]) {
            Ok(()) => {},
            Err(e) => {
                return Err(e);
            },
        }
        i = i + 1;
    }
    assert(events@.skip(i as int).len() == 0);
    Ok(())
}

/// A resize to a size that covers a whole pixel, and whose targets can be
/// made, leaves both targets with exactly the whole logical pixels of that
/// size, the quad with exactly that logical size, and the material bound to
/// targets of those dimensions, whatever was there before.
pub proof fn lemma_resize_installs_size(before: Surfaces, scale: ScaleFactor, event: WindowResized)
    requires
        scale.wf(),
        !event.spec_logical_size(scale).spec_is_empty(),
        fits(event.spec_logical_size(scale)),
    ensures
        resized(before, scale, event) matches Ok(after) && {
            &&& after.dims.0 == logical_pixels(event.width, scale)
            &&& after.dims.1 == logical_pixels(event.height, scale)
            &&& after.quad.size == event.spec_logical_size(scale)
            &&& after.material == BlendTexturesMaterial::spec_over(after.dims)
        },
{
}

/// In a window whose scale factor is one, a resize to `width` by `height`
/// pixels, both above zero, leaves both targets at exactly `width` by
/// `height` and the quad at the logical size of as many whole pixels,
/// provided targets of that size can be made.
pub proof fn lemma_resize_at_unit_scale(
    before: Surfaces,
    scale: ScaleFactor,
    width: u32,
    height: u32,
)
    requires
        scale.wf(),
        scale.spec_numer() == scale.spec_denom(),
        width > 0,
        height > 0,
        allocatable(width, height),
    ensures
        resized(before, scale, WindowResized { width, height }) matches Ok(after) && {
            &&& after.dims == (width, height)
            &&& after.quad.size == (WindowResized { width, height }).spec_logical_size(scale)
            &&& after.quad.size.spec_pixel_width() == width
            &&& after.quad.size.spec_pixel_height() == height
            &&& after.material.texture1.width == width
            &&& after.material.texture1.height == height
            &&& after.material.texture2.width == width
            &&& after.material.texture2.height == height
        },
{
    lemma_unit_ratio_keeps_pixels(width, scale);
    lemma_unit_ratio_keeps_pixels(height, scale);
}

/// The same resize signal twice in succession leaves what it leaves once.
pub proof fn lemma_resize_idempotent(before: Surfaces, scale: ScaleFactor, event: WindowResized)
    ensures
        resized_all(before, scale, seq![event, event]) == resized_all(before, scale, seq![event]),
        resized(before, scale, event) matches Ok(once) ==> resized(once, scale, event) == Ok::<
            Surfaces,
            ResizeError,
        >(once),
{
    let twice = seq![event, event];
    let single = seq![event];
    assert(twice.drop_first() =~= single);
    assert(single.drop_first() =~= Seq::<WindowResized>::empty());
    reveal_with_fuel(resized_all, 3);
}

/// Two compositors with the same surfaces hold targets that agree in
/// everything: identity, dimensions, usage and every pixel.
pub proof fn lemma_same_surfaces_same_targets(first: LightmapPlugin, second: LightmapPlugin)
    requires
        first.wf(),
        second.wf(),
        first.surfaces() == second.surfaces(),
    ensures
        first.spec_targets().dims() == second.spec_targets().dims(),
        first.spec_targets().spec_sprite_target().spec_id()
            == second.spec_targets().spec_sprite_target().spec_id(),
        first.spec_targets().spec_light_target().spec_id()
            == second.spec_targets().spec_light_target().spec_id(),
        first.spec_targets().spec_sprite_target().spec_usage()
            == second.spec_targets().spec_sprite_target().spec_usage(),
        first.spec_targets().spec_light_target().spec_usage()
            == second.spec_targets().spec_light_target().spec_usage(),
        first.spec_targets().spec_sprite_target().pixels()
            == second.spec_targets().spec_sprite_target().pixels(),
        first.spec_targets().spec_light_target().pixels()
            == second.spec_targets().spec_light_target().pixels(),
        first.spec_targets().spec_sprite_target().dims()
            == first.spec_targets().spec_light_target().dims(),
{
}

/// Of the signals of one tick only the last counts: where none fails and the
/// last one covers a whole pixel, the surfaces afterwards are those of the
/// last signal's size, whatever was there before and whatever came earlier
/// in the tick.
pub proof fn lemma_last_signal_decides(
    before: Surfaces,
    scale: ScaleFactor,
    events: Seq<WindowResized>,
)
    requires
        events.len() > 0,
        !resized_all(before, scale, events).1,
        !events.last().spec_logical_size(scale).spec_is_empty(),
    ensures
        resized_all(before, scale, events).0 == Surfaces::covering(
            events.last().spec_logical_size(scale),
        ),
    decreases events.len(),
{
    let rest = events.drop_first();
    match resized(before, scale, events[0]) {
        Ok(after) => {
            if events.len() == 1 {
                assert(rest.len() == 0);
                assert(fits(events[0].spec_logical_size(scale)));
            } else {
                assert(rest.last() == events.last());
                lemma_last_signal_decides(after, scale, rest);
            }
        },
        Err(_) => {},
    }
}

} // verus!
