use raytracer::scene::Vec3Bits;
use raytracer::settings::{
    RenderMode, RenderSettings, Settings, SettingsResponse, WorldSettings,
    DEFAULT_FOV_BITS, DEFAULT_SKY_COLOR_BITS, DEFAULT_SUN_ANGLE_BITS,
};
use raytracer::util::{Reset, UpdateResponse};

#[test]
fn world_defaults_decode_to_the_documented_reals() {
    let world = WorldSettings::default();
    assert_eq!(f32::from_bits(world.sun_size), 1.0);
    assert_eq!(f32::from_bits(world.sun_strength), 1.0);
    assert_eq!(f32::from_bits(world.sun_rotation), 45.0_f32.to_radians());
    assert_eq!(f32::from_bits(world.sun_elevation), 45.0_f32.to_radians());
    assert_eq!(world.sun_color, Vec3Bits::splat(1.0_f32.to_bits()));
    assert_eq!(world.sky_color, Vec3Bits::splat(0.6_f32.to_bits()));
    assert_eq!(DEFAULT_SUN_ANGLE_BITS, 45.0_f32.to_radians().to_bits());
    assert_eq!(DEFAULT_SKY_COLOR_BITS, 0.6_f32.to_bits());
}

#[test]
fn render_defaults_decode_to_the_documented_knobs() {
    let render = RenderSettings::default();
    assert_eq!(f32::from_bits(render.fov), 70.0_f32.to_radians());
    assert_eq!(DEFAULT_FOV_BITS, 70.0_f32.to_radians().to_bits());
    assert_eq!(render.mode, RenderMode::Realistic);
    assert!(render.accumulate);
    assert_eq!(render.samples_per_frame, 1);
    assert!(!render.highlight);
    assert!(!render.lock_camera);
    assert_eq!(render.max_bounces, 5);
}

#[test]
fn render_mode_tags_match_the_wire_contract() {
    let modes = [
        RenderMode::Preview,
        RenderMode::Realistic,
        RenderMode::Position,
        RenderMode::Normal,
        RenderMode::Depth,
        RenderMode::Fresnel,
        RenderMode::Roughness,
        RenderMode::RayDir,
        RenderMode::Noise,
    ];
    for (i, mode) in modes.iter().enumerate() {
        assert_eq!(mode.as_u32(), i as u32);
    }
    assert_eq!(RenderMode::default(), RenderMode::Realistic);
}

#[test]
fn render_mode_labels() {
    assert_eq!(RenderMode::Preview.label(), "Preview shading");
    assert_eq!(RenderMode::Realistic.label(), "Realistic shading");
    assert_eq!(RenderMode::Position.label(), "Position (debug)");
    assert_eq!(RenderMode::Normal.label(), "Normal (debug)");
    assert_eq!(RenderMode::Depth.label(), "Distance (debug)");
    assert_eq!(RenderMode::Fresnel.label(), "Fresnel (debug)");
    assert_eq!(RenderMode::Roughness.label(), "Roughness (debug)");
    assert_eq!(RenderMode::RayDir.label(), "Ray direction (debug)");
    assert_eq!(RenderMode::Noise.label(), "Noise (debug)");
}

#[test]
fn settings_response_starts_changed_and_resets_clean() {
    let response = SettingsResponse::default();
    assert!(response.changed);
    assert!(!response.focused);
    assert!(!response.screenshot);
    assert!(!response.save_data);
    assert!(!response.clear_data);

    let mut response = SettingsResponse {
        focused: true,
        screenshot: true,
        save_data: true,
        clear_data: true,
        changed: true,
    };
    response.reset();
    assert_eq!(response, SettingsResponse::reset_state());
    assert!(!response.changed);
    assert!(!response.screenshot);
}

#[test]
fn settings_response_flags_accumulate() {
    let mut settings = Settings::default();
    settings.response.reset();
    settings.set_changed(true);
    settings.set_changed(false);
    assert!(settings.response.changed);
    assert!(!settings.response.focused);
    settings.set_focused(true);
    assert!(settings.response.focused);
}
