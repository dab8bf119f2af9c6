//! World and render settings consumed by the accumulation pass, and the
//! per-frame response through which the settings window reports edits.
//!
//! As in the scene, real-valued parameters (colors, angles, strengths, the
//! field of view) are opaque 32-bit words owned by the host; the core only
//! decides when they must be re-uploaded.

use vstd::prelude::*;
use vstd::string::StringExecFns;

use crate::scene::Vec3Bits;
use crate::util::{Reset, UpdateResponse};

verus! {

/// Bit pattern of a 45 degree angle in radians (real pi/4), the default sun
/// rotation and elevation.
pub const DEFAULT_SUN_ANGLE_BITS: u32 = 0x3F49_0FDB;

/// Bit pattern of the default sky color channel (real 0.6).
pub const DEFAULT_SKY_COLOR_BITS: u32 = 0x3F19_999A;

/// Bit pattern of the default vertical field of view in radians (real value
/// of 70 degrees).
pub const DEFAULT_FOV_BITS: u32 = 0x3F9C_61AA;

/// Sky and sun parameters of the world/settings uniform block.
#[derive(Clone, Copy, Debug, PartialEq, Eq, Structural)]
pub struct WorldSettings {
    pub sun_size: u32,
    pub sun_strength: u32,
    pub sun_rotation: u32,
    pub sun_elevation: u32,
    pub sun_color: Vec3Bits,
    pub sky_color: Vec3Bits,
}

impl WorldSettings {
    /// The starting world: a white sun of unit size and strength at 45
    /// degrees, under a light grey sky.
    pub open spec fn spec_default() -> WorldSettings {
        WorldSettings {
            sun_size: crate::scene::ONE_BITS,
            sun_strength: crate::scene::ONE_BITS,
            sun_rotation: DEFAULT_SUN_ANGLE_BITS,
            sun_elevation: DEFAULT_SUN_ANGLE_BITS,
            sun_color: Vec3Bits::spec_splat(crate::scene::ONE_BITS),
            sky_color: Vec3Bits::spec_splat(DEFAULT_SKY_COLOR_BITS),
        }
    }
}

impl Default for WorldSettings {
    /// Builds [`WorldSettings::spec_default`].
    fn default() -> (r: Self)
        ensures
            r == WorldSettings::spec_default(),
    {
        WorldSettings {
            sun_size: crate::scene::ONE_BITS,
            sun_strength: crate::scene::ONE_BITS,
            sun_rotation: DEFAULT_SUN_ANGLE_BITS,
            sun_elevation: DEFAULT_SUN_ANGLE_BITS,
            sun_color: Vec3Bits::splat(crate::scene::ONE_BITS),
            sky_color: Vec3Bits::splat(DEFAULT_SKY_COLOR_BITS),
        }
    }
}

/// How the accumulation pass shades, encoded for the shader by
/// [`RenderMode::as_u32`].
#[derive(Clone, Copy, Debug, PartialEq, Eq, Structural)]
pub enum RenderMode {
    Preview,
    Realistic,
    Position,
    Normal,
    Depth,
    Fresnel,
    Roughness,
    RayDir,
    Noise,
}

impl RenderMode {
    /// The tag this variant is encoded as on the uniform wire.
    pub open spec fn spec_as_u32(self) -> u32 {
        match self {
            RenderMode::Preview => 0u32,
            RenderMode::Realistic => 1u32,
            RenderMode::Position => 2u32,
            RenderMode::Normal => 3u32,
            RenderMode::Depth => 4u32,
            RenderMode::Fresnel => 5u32,
            RenderMode::Roughness => 6u32,
            RenderMode::RayDir => 7u32,
            RenderMode::Noise => 8u32,
        }
    }

    /// Encodes the variant for the uniform wire.
    #[verifier::when_used_as_spec(spec_as_u32)]
    pub fn as_u32(self) -> (r: u32)
        ensures
            r == self.spec_as_u32(),
    {
        match self {
            RenderMode::Preview => 0u32,
            RenderMode::Realistic => 1u32,
            RenderMode::Position => 2u32,
            RenderMode::Normal => 3u32,
            RenderMode::Depth => 4u32,
            RenderMode::Fresnel => 5u32,
            RenderMode::Roughness => 6u32,
            RenderMode::RayDir => 7u32,
            RenderMode::Noise => 8u32,
        }
    }

    /// Name shown for the variant in the render-mode picker.
    pub open spec fn spec_label(self) -> Seq<char> {
        match self {
            RenderMode::Preview => "Preview shading"@,
            RenderMode::Realistic => "Realistic shading"@,
            RenderMode::Position => "Position (debug)"@,
            RenderMode::Normal => "Normal (debug)"@,
            RenderMode::Depth => "Distance (debug)"@,
            RenderMode::Fresnel => "Fresnel (debug)"@,
            RenderMode::Roughness => "Roughness (debug)"@,
            RenderMode::RayDir => "Ray direction (debug)"@,
            RenderMode::Noise => "Noise (debug)"@,
        }
    }

    /// Returns the name shown for the variant.
    pub fn label(self) -> (r: String)
        ensures
            r@ == self.spec_label(),
    {
        match self {
            RenderMode::Preview => String::from_str("Preview shading"),
            RenderMode::Realistic => String::from_str("Realistic shading"),
            RenderMode::Position => String::from_str("Position (debug)"),
            RenderMode::Normal => String::from_str("Normal (debug)"),
            RenderMode::Depth => String::from_str("Distance (debug)"),
            RenderMode::Fresnel => String::from_str("Fresnel (debug)"),
            RenderMode::Roughness => String::from_str("Roughness (debug)"),
            RenderMode::RayDir => String::from_str("Ray direction (debug)"),
            RenderMode::Noise => String::from_str("Noise (debug)"),
        }
    }
}

impl Default for RenderMode {
    /// Realistic shading is the mode the tracer starts in.
    fn default() -> (r: Self)
        ensures
            r == RenderMode::Realistic,
    {
        RenderMode::Realistic
    }
}

/// Knobs of the accumulation and post-process passes.
#[derive(Clone, Copy, Debug, PartialEq, Eq, Structural)]
pub struct RenderSettings {
    pub fov: u32,
    pub mode: RenderMode,
    pub accumulate: bool,
    pub samples_per_frame: u32,
    pub highlight: bool,
    pub lock_camera: bool,
    pub max_bounces: u32,
}

impl RenderSettings {
    /// The starting render knobs: realistic accumulation, one sample per
    /// frame, five bounces, default field of view; no highlight, camera
    /// free.
    pub open spec fn spec_default() -> RenderSettings {
        RenderSettings {
            fov: DEFAULT_FOV_BITS,
            mode: RenderMode::Realistic,
            accumulate: true,
            samples_per_frame: 1u32,
            highlight: false,
            lock_camera: false,
            max_bounces: 5u32,
        }
    }
}

impl Default for RenderSettings {
    /// Builds [`RenderSettings::spec_default`].
    fn default() -> (r: Self)
        ensures
            r == RenderSettings::spec_default(),
    {
        RenderSettings {
            fov: DEFAULT_FOV_BITS,
            mode: RenderMode::Realistic,
            accumulate: true,
            samples_per_frame: 1u32,
            highlight: false,
            lock_camera: false,
            max_bounces: 5u32,
        }
    }
}

/// What the settings window reported this frame: focus and edit flags as in
/// [`crate::scene::SceneResponse`], plus one-shot requests to the host.
#[derive(Clone, Copy, Debug, PartialEq, Eq, Structural)]
pub struct SettingsResponse {
    pub focused: bool,
    /// Hide the editor windows for a few seconds so a clean frame can be
    /// captured.
    pub screenshot: bool,
    /// Persist the application data now.
    pub save_data: bool,
    /// Forget the persisted application data.
    pub clear_data: bool,
    pub changed: bool,
}

impl Default for SettingsResponse {
    /// The initial response claims a change so the first frame uploads the
    /// settings block.
    fn default() -> (r: Self)
        ensures
            !r.focused,
            !r.screenshot,
            !r.save_data,
            !r.clear_data,
            r.changed,
    {
        SettingsResponse {
            focused: false,
            screenshot: false,
            save_data: false,
            clear_data: false,
            changed: true,
        }
    }
}

impl Reset for SettingsResponse {
    open spec fn reset_spec() -> Self {
        SettingsResponse {
            focused: false,
            screenshot: false,
            save_data: false,
            clear_data: false,
            changed: false,
        }
    }

    fn reset_state() -> (r: Self) {
        SettingsResponse {
            focused: false,
            screenshot: false,
            save_data: false,
            clear_data: false,
            changed: false,
        }
    }

    fn reset(&mut self) {
        *self = SettingsResponse {
            focused: false,
            screenshot: false,
            save_data: false,
            clear_data: false,
            changed: false,
        };
    }
}

/// All settings together with the window's response.
#[derive(Clone, Copy, Debug, PartialEq, Eq, Structural)]
pub struct Settings {
    pub world: WorldSettings,
    pub render: RenderSettings,
    pub response: SettingsResponse,
}

impl Default for Settings {
    /// Default world and render settings, with the response claiming a
    /// change so the first frame uploads everything.
    fn default() -> (r: Self)
        ensures
            r.world == WorldSettings::spec_default(),
            r.render == RenderSettings::spec_default(),
            !r.response.focused,
            !r.response.screenshot,
            !r.response.save_data,
            !r.response.clear_data,
            r.response.changed,
    {
        Settings {
            world: WorldSettings::default(),
            render: RenderSettings::default(),
            response: SettingsResponse::default(),
        }
    }
}

impl UpdateResponse for Settings {
    open spec fn focused_flag(self) -> bool {
        self.response.focused
    }

    open spec fn changed_flag(self) -> bool {
        self.response.changed
    }

    fn set_focused(&mut self, focused: bool)
        ensures
            *final(self) == (Settings {
                response: SettingsResponse {
                    focused: old(self).response.focused || focused,
                    ..old(self).response
                },
                ..*old(self)
            }),
    {
        self.response.focused = self.response.focused || focused;
    }

    fn set_changed(&mut self, changed: bool)
        ensures
            *final(self) == (Settings {
                response: SettingsResponse {
                    changed: old(self).response.changed || changed,
                    ..old(self).response
                },
                ..*old(self)
            }),
    {
        self.response.changed = self.response.changed || changed;
    }
}

} // verus!
