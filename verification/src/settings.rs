//! The configuration that the compositor is started with.

use crate::color::{Rgba, UNIT};
use vstd::prelude::*;

verus! {

/// What a camera clears its target to before it draws.
#[derive(Clone, Copy, Debug, PartialEq, Eq, Structural)]
pub enum ClearColorConfig {
    /// The clear colour of the host renderer.
    Default,
    /// This colour.
    Custom(Rgba),
    /// Nothing: the target keeps what it held.
    Keep,
}

impl ClearColorConfig {
    /// The colour that a target is cleared to under this policy, where
    /// `host_default` is the clear colour of the host renderer; nothing where
    /// the target is not cleared.
    pub open spec fn spec_resolve(self, host_default: Rgba) -> Option<Rgba> {
        match self {
            ClearColorConfig::Default => Some(host_default),
            ClearColorConfig::Custom(color) => Some(color),
            ClearColorConfig::Keep => None,
        }
    }

    /// The colour that a target is cleared to under this policy.
    pub fn resolve(self, host_default: Rgba) -> (color: Option<Rgba>)
        ensures
            color == self.spec_resolve(host_default),
    {
        match self {
            ClearColorConfig::Default => Some(host_default),
            ClearColorConfig::Custom(color) => Some(color),
            ClearColorConfig::Keep => None,
        }
    }
}

/// The bloom that follows the present pass, in thousandths.
#[derive(Clone, Copy, Debug, PartialEq, Eq, Structural)]
pub struct Bloom {
    /// How much scattered light is laid over the image.
    pub intensity: u32,
    /// The brightness from which a pixel scatters light.
    pub threshold: u32,
}

/// What the compositor is started with. It does not change afterwards.
#[derive(Clone, Copy, Debug, PartialEq, Eq, Structural)]
pub struct LightmapPluginSettings {
    /// What the diffuse pass clears its target to.
    pub clear_color: ClearColorConfig,
    /// The light where no light sprite shines: what the light pass clears its
    /// target to.
    pub ambient_light: Rgba,
    /// Bloom after the present pass, if any.
    pub bloom: Option<Bloom>,
}

impl LightmapPluginSettings {
    /// The settings of a compositor that was given none: the host's clear
    /// colour, a dim grey ambient light of three tenths, no bloom.
    pub open spec fn spec_default() -> LightmapPluginSettings {
        LightmapPluginSettings {
            clear_color: ClearColorConfig::Default,
            ambient_light: Rgba { r: 300, g: 300, b: 300, a: UNIT },
            bloom: None,
        }
    }
}

impl Default for LightmapPluginSettings {
    fn default() -> (settings: LightmapPluginSettings)
        ensures
            settings == LightmapPluginSettings::spec_default(),
    {
        LightmapPluginSettings {
            clear_color: ClearColorConfig::Default,
            ambient_light: Rgba::rgb(300, 300, 300),
            bloom: None,
        }
    }
}

} // verus!
