//! The pair of off-screen colour targets that the capture cameras draw into.

use bevy::image::Image;
use vstd::prelude::*;

verus! {

/// Bytes that one pixel of a target occupies.
pub const BYTES_PER_PIXEL: usize = 4;

/// Usage bit of a texture that may be the destination of a copy.
pub const USAGE_COPY_DST: u32 = 2;

/// Usage bit of a texture that may be sampled in a shader.
pub const USAGE_TEXTURE_BINDING: u32 = 4;

/// Usage bit of a texture that may be the colour attachment of a render pass.
pub const USAGE_RENDER_ATTACHMENT: u32 = 16;

/// The usage of every render target: sampled, render attachment and copy
/// destination together.
pub const TARGET_USAGE: u32 = 22;

/// Identity of the image that the sprite camera draws into.
pub const SPRITE_TARGET_ID: u128 = 0x4098187b_13f5_4531_a584_a2b4c7ad3e05;

/// Identity of the image that the light camera draws into.
pub const LIGHT_TARGET_ID: u128 = 0x13e36f32_8c1d_4566_be37_5a7da7cea2ca;

/// `bevy::image::Image`, the image type of the host renderer. Nothing inside
/// it is visible here; what the contracts say of an image, they say through
/// the three names below.
#[verifier::external_type_specification]
#[verifier::external_body]
pub struct ExImage(Image);

/// The pixel bytes that an image holds, row by row.
pub uninterp spec fn image_data(image: Image) -> Seq<u8>;

/// The width and height, in pixels, that an image was made with.
pub uninterp spec fn image_size(image: Image) -> (u32, u32);

/// The usage bits in the texture descriptor of an image.
pub uninterp spec fn image_usage(image: Image) -> u32;

/// Builds a two-dimensional image with `bevy::image::Image::new`, in the
/// default texture format and with the default asset usage, then sets the
/// label and the usage bits of its texture descriptor.
///
/// Trusted: the image holds exactly the bytes handed in, reports the width
/// and height handed in, and carries the usage bits handed in. The default
/// format has four bytes per pixel, and `Image::new` wants as many bytes as
/// the extent has pixels times that; the extent's pixel count is computed in
/// `u32`.
#[verifier::external_body]
fn new_image(label: &'static str, width: u32, height: u32, usage: u32, data: Vec<u8>) -> (image:
    Image)
    requires
        width * height <= u32::MAX,
        data@.len() == width * height * 4,
    ensures
        image_data(image) == data@,
        image_size(image) == (width, height),
        image_usage(image) == usage,
{
    let size = bevy::render::render_resource::Extent3d { width, height, depth_or_array_layers: 1 };
    let dimension = bevy::render::render_resource::TextureDimension::D2;
    let format = bevy::image::BevyDefault::bevy_default();
    let mut image = Image::new(size, dimension, data, format, Default::default());
    image.texture_descriptor.label = Some(label);
    image.texture_descriptor.usage =
        bevy::render::render_resource::TextureUsages::from_bits_retain(usage);
    image
}

/// The usage of a target is made of exactly the three usage bits.
pub proof fn lemma_target_usage_bits()
    ensures
        TARGET_USAGE == USAGE_COPY_DST | USAGE_TEXTURE_BINDING | USAGE_RENDER_ATTACHMENT,
{
    assert(22u32 == 2u32 | 4u32 | 16u32) by (bit_vector);
}

/// The contents of a freshly made target of the given size: every byte zero.
pub open spec fn blank_pixels(width: u32, height: u32) -> Seq<u8> {
    Seq::new((width * height * BYTES_PER_PIXEL) as nat, |i: int| 0u8)
}

/// Whether a target of this size can be made: its pixel count fits in `u32`
/// and its byte count in `isize`, the most that one buffer can hold.
pub open spec fn allocatable(width: u32, height: u32) -> bool {
    &&& width * height <= u32::MAX
    &&& width * height * BYTES_PER_PIXEL <= isize::MAX
}

/// Why a pair of targets could not be made.
#[derive(Clone, Copy, Debug, PartialEq, Eq, Structural)]
pub enum TargetError {
    /// The buffers of a target of the asked size cannot be allocated.
    AllocationFailed,
}

/// An off-screen two-dimensional colour image that a camera renders into.
pub struct RenderTarget {
    id: u128,
    width: u32,
    height: u32,
    usage: u32,
    image: Image,
}

impl RenderTarget {
    /// The identity under which the image is published.
    pub closed spec fn spec_id(&self) -> u128 {
        self.id
    }

    /// Width in pixels.
    pub closed spec fn spec_width(&self) -> u32 {
        self.width
    }

    /// Height in pixels.
    pub closed spec fn spec_height(&self) -> u32 {
        self.height
    }

    /// Usage bits.
    pub closed spec fn spec_usage(&self) -> u32 {
        self.usage
    }

    /// The pixel bytes of the image behind the target.
    pub closed spec fn pixels(&self) -> Seq<u8> {
        image_data(self.image)
    }

    /// The image behind the target agrees with what the target reports.
    /// Every target that a program holds is of this kind.
    #[verifier::type_invariant]
    pub closed spec fn wf(&self) -> bool {
        &&& image_size(self.image) == (self.width, self.height)
        &&& image_usage(self.image) == self.usage
        &&& image_data(self.image).len() == self.width * self.height * BYTES_PER_PIXEL
    }

    /// Width and height together.
    pub open spec fn dims(&self) -> (u32, u32) {
        (self.spec_width(), self.spec_height())
    }

    /// Makes a target of the given size whose pixels are all zero.
    ///
    /// Fails exactly when such a target is not [`allocatable`].
    pub fn blank(id: u128, label: &'static str, width: u32, height: u32) -> (made: Result<
        RenderTarget,
        TargetError,
    >)
        ensures
            made is Ok <==> allocatable(width, height),
            made matches Ok(target) ==> {
                &&& target.wf()
                &&& target.spec_id() == id
                &&& target.dims() == (width, height)
                &&& target.spec_usage() == TARGET_USAGE
                &&& target.pixels() == blank_pixels(width, height)
            },
            made matches Err(e) ==> e == TargetError::AllocationFailed,
    {
        let area: u32 = match width.checked_mul(height) {
            Some(area) => area,
            None => {
                return Err(TargetError::AllocationFailed);
            },
        };
        let len: usize = match (area as usize).checked_mul(BYTES_PER_PIXEL) {
            Some(len) => len,
            None => {
                return Err(TargetError::AllocationFailed);
            },
        };
        if len > isize::MAX as usize {
            return Err(TargetError::AllocationFailed);
        }
        let data: Vec<u8> = vec![0u8; len];
        assert(data@ =~= blank_pixels(width, height));
        let image = new_image(label, width, height, TARGET_USAGE, data);
        Ok(RenderTarget { id, width, height, usage: TARGET_USAGE, image })
    }

    /// The identity under which the image is published.
    pub fn id(&self) -> (id: u128)
        ensures
            id == self.spec_id(),
    {
        self.id
    }

    /// Width in pixels.
    pub fn width(&self) -> (width: u32)
        ensures
            width == self.spec_width(),
    {
        self.width
    }

    /// Height in pixels.
    pub fn height(&self) -> (height: u32)
        ensures
            height == self.spec_height(),
    {
        self.height
    }

    /// Usage bits.
    pub fn usage(&self) -> (usage: u32)
        ensures
            usage == self.spec_usage(),
    {
        self.usage
    }

    /// The image behind the target.
    pub fn image(&self) -> (image: &Image)
        ensures
            image_data(*image) == self.pixels(),
            image_size(*image) == self.dims(),
            image_usage(*image) == self.spec_usage(),
    {
        proof {
            use_type_invariant(self);
        }
        &self.image
    }
}

/// The two targets of the compositor: one for the diffuse sprites, one for
/// the lights. They are made together and always have the same size.
pub struct CameraTargets {
    sprite_target: RenderTarget,
    light_target: RenderTarget,
}

impl CameraTargets {
    /// The target of the sprite camera.
    pub closed spec fn spec_sprite_target(&self) -> RenderTarget {
        self.sprite_target
    }

    /// The target of the light camera.
    pub closed spec fn spec_light_target(&self) -> RenderTarget {
        self.light_target
    }

    /// Both targets are sound, carry their own identities and the target
    /// usage, and have identical dimensions. Every pair that a program holds
    /// is of this kind.
    #[verifier::type_invariant]
    pub open spec fn wf(&self) -> bool {
        &&& self.spec_sprite_target().wf()
        &&& self.spec_light_target().wf()
        &&& self.spec_sprite_target().spec_id() == SPRITE_TARGET_ID
        &&& self.spec_light_target().spec_id() == LIGHT_TARGET_ID
        &&& self.spec_sprite_target().spec_usage() == TARGET_USAGE
        &&& self.spec_light_target().spec_usage() == TARGET_USAGE
        &&& self.spec_sprite_target().dims() == self.spec_light_target().dims()
    }

    /// The dimensions that both targets share.
    pub open spec fn dims(&self) -> (u32, u32) {
        self.spec_sprite_target().dims()
    }

    /// Makes both targets anew at `width` by `height` pixels, every pixel
    /// zero.
    ///
    /// Fails exactly when a target of that size is not [`allocatable`]; then
    /// nothing is made.
    pub fn create(width: u32, height: u32) -> (made: Result<CameraTargets, TargetError>)
        ensures
            made is Ok <==> allocatable(width, height),
            made matches Ok(targets) ==> {
                &&& targets.wf()
                &&& targets.dims() == (width, height)
                &&& targets.spec_sprite_target().pixels() == blank_pixels(width, height)
                &&& targets.spec_light_target().pixels() == blank_pixels(width, height)
            },
            made matches Err(e) ==> e == TargetError::AllocationFailed,
    {
        let sprite_target = match RenderTarget::blank(
            SPRITE_TARGET_ID,
            "target_sprite",
            width,
            height,
        ) {
            Ok(target) => target,
            Err(e) => {
                return Err(e);
            },
        };
        let light_target = match RenderTarget::blank(
            LIGHT_TARGET_ID,
            "target_light",
            width,
            height,
        ) {
            Ok(target) => target,
            Err(e) => {
                return Err(e);
            },
        };
        Ok(CameraTargets { sprite_target, light_target })
    }

    /// The target of the sprite camera.
    pub fn sprite_target(&self) -> (target: &RenderTarget)
        ensures
            *target == self.spec_sprite_target(),
    {
        &self.sprite_target
    }

    /// The target of the light camera.
    pub fn light_target(&self) -> (target: &RenderTarget)
        ensures
            *target == self.spec_light_target(),
    {
        &self.light_target
    }

    /// Width of both targets in pixels.
    pub fn width(&self) -> (width: u32)
        ensures
            width == self.dims().0,
            width == self.spec_sprite_target().spec_width(),
            width == self.spec_light_target().spec_width(),
    {
        proof {
            use_type_invariant(self);
        }
        self.sprite_target.width()
    }

    /// Height of both targets in pixels.
    pub fn height(&self) -> (height: u32)
        ensures
            height == self.dims().1,
            height == self.spec_sprite_target().spec_height(),
            height == self.spec_light_target().spec_height(),
    {
        proof {
            use_type_invariant(self);
        }
        self.sprite_target.height()
    }
}

} // verus!
