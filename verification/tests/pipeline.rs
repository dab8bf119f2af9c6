use raytracer::render::{ChangeSignal, Raytracer, ScreenSize, TexContent};

fn size(w: u32, h: u32) -> ScreenSize {
    ScreenSize::new(w, h)
}

fn scene_changed() -> ChangeSignal {
    ChangeSignal { camera_moved: false, scene_changed: true, settings_changed: false, resized: false }
}

fn camera_moved() -> ChangeSignal {
    ChangeSignal { camera_moved: true, scene_changed: false, settings_changed: false, resized: false }
}

#[test]
fn initial_state() {
    let rt = Raytracer::new(size(640, 480));
    assert_eq!(rt.frame_index, 1);
    assert!(rt.first_frame);
    assert!(rt.rendering_to_texture_0);
    assert!(!rt.needs_ray_recalc);
    assert!(!rt.force_scr_size);
    assert!(!rt.targets.destroyed);
    assert_eq!(rt.ray_dir_calcs, 1);
    assert_eq!(rt.scene_uploads, 0);
    assert_eq!(rt.settings_uploads, 0);
    assert_eq!(rt.targets.ray_dirs.content, TexContent::RayDirs);
    assert_eq!(rt.targets.noise_0.content, TexContent::Zero);
    assert_eq!(rt.targets.noise_1.content, TexContent::Zero);
    assert_eq!(rt.targets.accumulation_0.content, TexContent::Zero);
    assert_eq!(rt.targets.accumulation_1.content, TexContent::Zero);
    for t in [
        rt.targets.ray_dirs,
        rt.targets.noise_0,
        rt.targets.noise_1,
        rt.targets.accumulation_0,
        rt.targets.accumulation_1,
    ] {
        assert_eq!((t.width, t.height), (640, 480));
    }
}

#[test]
fn quiet_frames_advance_and_alternate() {
    let mut rt = Raytracer::new(size(320, 200));
    let mut parity = true;
    for expected in 1..=5u32 {
        assert_eq!(rt.rendering_to_texture_0, parity);
        let plan = rt.paint(ChangeSignal::quiet());
        assert_eq!(plan.frame_index, expected);
        assert!(!plan.invalidated);
        assert_eq!(plan.write_to_texture_0, parity);
        assert_eq!(rt.frame_index, expected + 1);
        parity = !parity;
    }
}

#[test]
fn invalidation_resets_frame_index_and_buffers() {
    let mut rt = Raytracer::new(size(320, 200));
    for _ in 0..3 {
        rt.paint(ChangeSignal::quiet());
    }
    assert_eq!(rt.frame_index, 4);

    let plan = rt.paint(camera_moved());
    assert!(plan.invalidated);
    assert_eq!(plan.frame_index, 1);
    assert_eq!(rt.frame_index, 2);

    // The side just written holds exactly one sample set; the other side is
    // still the cleared (zero) buffer, so the two compared equal before the
    // blend.
    let (written, other) = if plan.write_to_texture_0 {
        (rt.targets.accumulation_0, rt.targets.accumulation_1)
    } else {
        (rt.targets.accumulation_1, rt.targets.accumulation_0)
    };
    assert_eq!(written.content, TexContent::Accum { samples: 1 });
    assert_eq!(other.content, TexContent::Zero);
}

#[test]
fn resize_forces_exactly_one_ray_dir_recompute() {
    let mut rt = Raytracer::new(size(640, 480));
    rt.paint(ChangeSignal::quiet());
    let calcs_before = rt.ray_dir_calcs;

    rt.set_scr_size(size(800, 600));
    assert_eq!(rt.frame_index, 1);
    assert!(rt.needs_ray_recalc);
    for t in [
        rt.targets.ray_dirs,
        rt.targets.noise_0,
        rt.targets.noise_1,
        rt.targets.accumulation_0,
        rt.targets.accumulation_1,
    ] {
        assert_eq!((t.width, t.height), (800, 600));
    }

    let plan = rt.paint(ChangeSignal::quiet());
    assert!(plan.run_ray_dirs);
    assert!(plan.uploads.inv_matrices);
    assert_eq!(rt.ray_dir_calcs, calcs_before + 1);

    let plan = rt.paint(ChangeSignal::quiet());
    assert!(!plan.run_ray_dirs);
    assert!(!plan.uploads.inv_matrices);
    assert_eq!(rt.ray_dir_calcs, calcs_before + 1);
}

#[test]
fn resize_to_same_size_is_a_silent_no_op() {
    let mut rt = Raytracer::new(size(640, 480));
    rt.paint(ChangeSignal::quiet());
    let before = rt;
    rt.set_scr_size(size(640, 480));
    assert_eq!(rt, before);
}

#[test]
fn forced_resize_reallocates_even_at_the_same_size() {
    let mut rt = Raytracer::new(size(640, 480));
    rt.paint(ChangeSignal::quiet());
    rt.force_scr_size = true;
    rt.set_scr_size(size(640, 480));
    assert!(!rt.force_scr_size);
    assert_eq!(rt.frame_index, 1);
    assert!(rt.needs_ray_recalc);
    assert_eq!(rt.targets.accumulation_0.content, TexContent::Zero);
    assert_eq!(rt.targets.accumulation_1.content, TexContent::Zero);
}

#[test]
fn zero_area_viewport_is_absorbed() {
    let mut rt = Raytracer::new(size(0, 0));
    assert_eq!(rt.targets.ray_dirs.width, 0);
    let plan = rt.paint(ChangeSignal::quiet());
    assert_eq!(plan.frame_index, 1);
    assert_eq!(rt.frame_index, 2);
}

#[test]
fn upload_tiers_follow_first_frame_and_changes() {
    let mut rt = Raytracer::new(size(320, 200));

    // Frame 1: everything static is uploaded once.
    let plan = rt.paint(ChangeSignal::quiet());
    assert!(plan.uploads.scene_block);
    assert!(plan.uploads.settings_block);
    assert_eq!(rt.scene_uploads, 1);
    assert_eq!(rt.settings_uploads, 1);

    // Undisturbed frames re-upload nothing.
    let plan = rt.paint(ChangeSignal::quiet());
    assert!(!plan.uploads.scene_block);
    assert!(!plan.uploads.settings_block);
    assert_eq!(rt.scene_uploads, 1);
    assert_eq!(rt.settings_uploads, 1);

    // A scene edit re-uploads the scene block only.
    let plan = rt.paint(scene_changed());
    assert!(plan.uploads.scene_block);
    assert!(!plan.uploads.settings_block);
    assert_eq!(rt.scene_uploads, 2);
    assert_eq!(rt.settings_uploads, 1);

    // A camera move resets the accumulation but re-uploads neither block.
    let plan = rt.paint(camera_moved());
    assert!(plan.invalidated);
    assert!(!plan.uploads.scene_block);
    assert!(!plan.uploads.settings_block);
    assert_eq!(rt.scene_uploads, 2);
    assert_eq!(rt.settings_uploads, 1);
}

#[test]
fn ten_frames_then_scene_change_restarts_accumulation() {
    let mut rt = Raytracer::new(size(320, 200));
    let mut indices = Vec::new();
    for _ in 0..10 {
        indices.push(rt.paint(ChangeSignal::quiet()).frame_index);
    }
    let plan = rt.paint(scene_changed());
    indices.push(plan.frame_index);
    assert_eq!(indices, vec![1, 2, 3, 4, 5, 6, 7, 8, 9, 10, 1]);

    // The last frame's average was rebuilt from scratch, not blended with
    // the tenth frame's history.
    let written = if plan.write_to_texture_0 {
        rt.targets.accumulation_0
    } else {
        rt.targets.accumulation_1
    };
    assert_eq!(written.content, TexContent::Accum { samples: 1 });
}

#[test]
fn noise_pass_runs_every_frame() {
    let mut rt = Raytracer::new(size(320, 200));
    let plan = rt.paint(ChangeSignal::quiet());
    assert!(plan.write_to_texture_0);
    assert_eq!(rt.targets.noise_0.content, TexContent::Noise { frame: 1 });
    let plan = rt.paint(ChangeSignal::quiet());
    assert!(!plan.write_to_texture_0);
    assert_eq!(rt.targets.noise_1.content, TexContent::Noise { frame: 2 });
}

#[test]
fn common_uniforms_carry_size_and_frame_index() {
    let mut rt = Raytracer::new(size(321, 201));
    rt.paint(ChangeSignal::quiet());
    let common = rt.apply_uniforms_common();
    assert_eq!(common.scr_size, ScreenSize::new(321, 201));
    assert_eq!(common.frame_index, 2);
}

#[test]
fn destroy_marks_the_arena_dead() {
    let mut rt = Raytracer::new(size(64, 64));
    rt.destroy();
    assert!(rt.targets.destroyed);
}
