//! The render pipeline core: the render-target arena, the per-frame pass and
//! upload decisions, and the accumulation bookkeeping.
//!
//! Each displayed frame runs, in order: the ray-direction prepass (only when
//! the camera or the viewport changed), the noise pass (every frame), the
//! accumulation pass (every frame, blending one new sample set into the
//! running average with weight one over the frame index), and the
//! post-process pass (every frame, to the screen). The central invariant is
//! freshness: after any change signal the frame index returns to one and the
//! accumulation history is cleared, so a stale average is never blended with
//! new samples.
//!
//! GPU textures are modelled by what they hold ([`TexContent`]); the host
//! mirrors every decision of [`Raytracer::paint`] with the real GPU calls.

use vstd::prelude::*;

verus! {

/// A viewport size in pixels. A zero-area size is legal: allocation must
/// absorb it without failing.
#[derive(Clone, Copy, Debug, PartialEq, Eq, Structural)]
pub struct ScreenSize {
    pub width: u32,
    pub height: u32,
}

impl ScreenSize {
    /// Builds a size from its two extents.
    pub fn new(width: u32, height: u32) -> (r: ScreenSize)
        ensures
            r == (ScreenSize { width, height }),
    {
        ScreenSize { width, height }
    }
}

/// The change signals consumed once per frame: any true flag invalidates the
/// accumulated history before the frame's passes run.
#[derive(Clone, Copy, Debug, PartialEq, Eq, Structural)]
pub struct ChangeSignal {
    /// The camera moved or its projection changed.
    pub camera_moved: bool,
    /// Scene objects or materials were edited.
    pub scene_changed: bool,
    /// World or render settings were edited.
    pub settings_changed: bool,
    /// The viewport was resized this frame.
    pub resized: bool,
}

impl ChangeSignal {
    /// Whether any signal fired.
    pub open spec fn spec_any(self) -> bool {
        self.camera_moved || self.scene_changed || self.settings_changed || self.resized
    }

    /// Returns whether any signal fired.
    #[verifier::when_used_as_spec(spec_any)]
    pub fn any(self) -> (r: bool)
        ensures
            r == self.spec_any(),
    {
        self.camera_moved || self.scene_changed || self.settings_changed || self.resized
    }

    /// The frame input of an undisturbed frame: no signal fired.
    pub open spec fn spec_quiet() -> ChangeSignal {
        ChangeSignal { camera_moved: false, scene_changed: false, settings_changed: false, resized: false }
    }

    /// Builds the frame input of an undisturbed frame.
    #[verifier::when_used_as_spec(spec_quiet)]
    pub fn quiet() -> (r: ChangeSignal)
        ensures
            r == Self::spec_quiet(),
    {
        ChangeSignal { camera_moved: false, scene_changed: false, settings_changed: false, resized: false }
    }
}

/// What a render target's texture holds. The model tracks exactly as much as
/// the freshness argument needs: whether a texture is cleared, and how many
/// sample sets an accumulation buffer has averaged since its last clear.
#[derive(Clone, Copy, Debug, PartialEq, Eq, Structural)]
pub enum TexContent {
    /// Every pixel is zero: the state after allocation or a clear.
    Zero,
    /// Per-pixel ray directions for the current camera and viewport.
    RayDirs,
    /// The per-pixel noise state written while the given frame index was
    /// current.
    Noise { frame: u32 },
    /// A running average of this many sample sets, accumulated since the
    /// last clear.
    Accum { samples: u32 },
}

/// One render target: a texture (with its framebuffer attachment) of the
/// given pixel dimensions, holding [`TexContent`].
#[derive(Clone, Copy, Debug, PartialEq, Eq, Structural)]
pub struct RenderTarget {
    pub width: u32,
    pub height: u32,
    pub content: TexContent,
}

impl RenderTarget {
    /// A zero-filled target of the given size.
    pub open spec fn spec_fresh(size: ScreenSize) -> RenderTarget {
        RenderTarget { width: size.width, height: size.height, content: TexContent::Zero }
    }

    /// Builds a zero-filled target of the given size.
    #[verifier::when_used_as_spec(spec_fresh)]
    pub fn fresh(size: ScreenSize) -> (r: RenderTarget)
        ensures
            r == Self::spec_fresh(size),
    {
        RenderTarget { width: size.width, height: size.height, content: TexContent::Zero }
    }

    /// Whether the target's texture has exactly the given pixel dimensions.
    pub open spec fn sized(self, size: ScreenSize) -> bool {
        self.width == size.width && self.height == size.height
    }
}

/// The owner of every GPU texture of the pipeline: the ray-direction target,
/// the two noise targets and the two accumulation targets (each pair
/// ping-pong buffered). All handles live from construction to the single
/// `destroy`, except that a resize re-creates the texture storage in place.
#[derive(Clone, Copy, Debug, PartialEq, Eq, Structural)]
pub struct RenderTargetManager {
    pub ray_dirs: RenderTarget,
    pub noise_0: RenderTarget,
    pub noise_1: RenderTarget,
    pub accumulation_0: RenderTarget,
    pub accumulation_1: RenderTarget,
    /// Set by the single permitted `destroy`; no call may follow it.
    pub destroyed: bool,
}

impl RenderTargetManager {
    /// Every target's texture dimensions equal `size` exactly.
    pub open spec fn all_sized(self, size: ScreenSize) -> bool {
        &&& self.ray_dirs.sized(size)
        &&& self.noise_0.sized(size)
        &&& self.noise_1.sized(size)
        &&& self.accumulation_0.sized(size)
        &&& self.accumulation_1.sized(size)
    }

    /// The arena right after allocation: every target zero-filled at `size`.
    pub open spec fn spec_allocate(size: ScreenSize) -> RenderTargetManager {
        RenderTargetManager {
            ray_dirs: RenderTarget::spec_fresh(size),
            noise_0: RenderTarget::spec_fresh(size),
            noise_1: RenderTarget::spec_fresh(size),
            accumulation_0: RenderTarget::spec_fresh(size),
            accumulation_1: RenderTarget::spec_fresh(size),
            destroyed: false,
        }
    }

    /// Creates every texture and framebuffer at the given pixel dimensions.
    /// A zero-area size is allowed and yields empty targets. (On the GPU
    /// side, an incomplete framebuffer here aborts construction; that
    /// environment defect has no counterpart in the model.)
    pub fn allocate(size: ScreenSize) -> (r: RenderTargetManager)
        ensures
            r == Self::spec_allocate(size),
            r.all_sized(size),
    {
        RenderTargetManager {
            ray_dirs: RenderTarget::fresh(size),
            noise_0: RenderTarget::fresh(size),
            noise_1: RenderTarget::fresh(size),
            accumulation_0: RenderTarget::fresh(size),
            accumulation_1: RenderTarget::fresh(size),
            destroyed: false,
        }
    }

    /// The arena after a resize: new zero-filled texture storage at `size`
    /// behind the same handles.
    pub open spec fn spec_reallocate(self, size: ScreenSize) -> RenderTargetManager {
        RenderTargetManager { destroyed: self.destroyed, ..Self::spec_allocate(size) }
    }

    /// Re-creates every target's texture storage at the given dimensions,
    /// discarding all contents.
    pub fn reallocate(&mut self, size: ScreenSize)
        requires
            !old(self).destroyed,
        ensures
            *final(self) == old(self).spec_reallocate(size),
            final(self).all_sized(size),
    {
        self.ray_dirs = RenderTarget::fresh(size);
        self.noise_0 = RenderTarget::fresh(size);
        self.noise_1 = RenderTarget::fresh(size);
        self.accumulation_0 = RenderTarget::fresh(size);
        self.accumulation_1 = RenderTarget::fresh(size);
    }

    /// The arena after wiping the temporally-evolving targets: both noise
    /// and both accumulation textures zero, the ray-direction target kept.
    pub open spec fn spec_clear_history(self) -> RenderTargetManager {
        RenderTargetManager {
            noise_0: RenderTarget { content: TexContent::Zero, ..self.noise_0 },
            noise_1: RenderTarget { content: TexContent::Zero, ..self.noise_1 },
            accumulation_0: RenderTarget { content: TexContent::Zero, ..self.accumulation_0 },
            accumulation_1: RenderTarget { content: TexContent::Zero, ..self.accumulation_1 },
            ..self
        }
    }

    /// Clears both noise and both accumulation textures to zero, so that no
    /// stale sample survives an invalidation. Sizes and the ray-direction
    /// target are untouched.
    pub fn clear_history(&mut self)
        requires
            !old(self).destroyed,
        ensures
            *final(self) == old(self).spec_clear_history(),
            final(self).noise_0.content == TexContent::Zero,
            final(self).noise_1.content == TexContent::Zero,
            final(self).accumulation_0.content == TexContent::Zero,
            final(self).accumulation_1.content == TexContent::Zero,
            final(self).accumulation_0.content == final(self).accumulation_1.content,
    {
        self.noise_0.content = TexContent::Zero;
        self.noise_1.content = TexContent::Zero;
        self.accumulation_0.content = TexContent::Zero;
        self.accumulation_1.content = TexContent::Zero;
    }

    /// Releases every owned GPU object. The precondition makes a double
    /// free unstatable: `destroy` verifies only on a live arena.
    pub fn destroy(&mut self)
        requires
            !old(self).destroyed,
        ensures
            *final(self) == (RenderTargetManager { destroyed: true, ..*old(self) }),
    {
        self.destroyed = true;
    }
}

/// Which uniform blocks the accumulation pass re-uploads this frame. The
/// per-frame scalars (screen size, frame index, camera position and
/// direction) are uploaded unconditionally and are not listed.
#[derive(Clone, Copy, Debug, PartialEq, Eq, Structural)]
pub struct UniformUploads {
    /// Inverse projection and view matrices: only when the ray-direction
    /// prepass re-runs.
    pub inv_matrices: bool,
    /// Object transforms and materials: on the first frame and whenever the
    /// scene changed.
    pub scene_block: bool,
    /// Sky, sun and render settings: on the first frame and whenever the
    /// settings changed.
    pub settings_block: bool,
}

/// Everything the host must mirror on the GPU for one frame: which index the
/// frame was blended under, whether the history was cleared first, whether
/// the ray-direction prepass ran, which ping-pong side was written, and
/// which uniform blocks were re-uploaded. The noise, accumulation and
/// post-process passes run every frame.
#[derive(Clone, Copy, Debug, PartialEq, Eq, Structural)]
pub struct FramePlan {
    /// The frame index the frame was rendered under (the new sample set's
    /// weight is one over this).
    pub frame_index: u32,
    /// A change signal fired: the noise and accumulation textures were
    /// cleared before the passes ran.
    pub invalidated: bool,
    /// The ray-direction prepass ran before the accumulation pass.
    pub run_ray_dirs: bool,
    /// The ping-pong side the noise and accumulation passes wrote (the
    /// opposite side was read).
    pub write_to_texture_0: bool,
    pub uploads: UniformUploads,
}

/// The per-frame scalars every shader program receives.
#[derive(Clone, Copy, Debug, PartialEq, Eq, Structural)]
pub struct CommonUniforms {
    pub scr_size: ScreenSize,
    pub frame_index: u32,
}

/// The pipeline orchestrator: owns the render targets and decides, per
/// frame, which passes re-run, which uniform blocks are re-uploaded, and how
/// the accumulation history advances.
#[derive(Clone, Copy, Debug, PartialEq, Eq, Structural)]
pub struct Raytracer {
    pub targets: RenderTargetManager,
    /// The viewport's pixel dimensions; every target matches it exactly.
    pub scr_size: ScreenSize,
    /// One plus the number of sample sets accumulated since the last
    /// invalidation; starts at one so the blend weight is never one over
    /// zero.
    pub frame_index: u32,
    /// True until the first frame completes; forces the one-time upload of
    /// every static uniform block.
    pub first_frame: bool,
    /// The ping-pong parity: which side the noise and accumulation passes
    /// write this frame. Flips after every frame.
    pub rendering_to_texture_0: bool,
    /// The camera or viewport changed and the ray-direction prepass must run
    /// before the next accumulation pass.
    pub needs_ray_recalc: bool,
    /// Treat the next size the host reports as new even if it equals the
    /// current one.
    pub force_scr_size: bool,
    /// How many times the scene uniform block was uploaded.
    pub scene_uploads: u64,
    /// How many times the world/settings uniform block was uploaded.
    pub settings_uploads: u64,
    /// How many times the ray-direction prepass ran.
    pub ray_dir_calcs: u64,
}

impl Raytracer {
    /// The accumulation content a buffer holds `k` frames after its clear:
    /// zero before any blend, else the average of `k` sample sets.
    pub open spec fn expected_accum(k: int) -> TexContent {
        if k == 0 {
            TexContent::Zero
        } else {
            TexContent::Accum { samples: k as u32 }
        }
    }

    /// The accumulation target the pass reads this frame (the side written
    /// last frame).
    pub open spec fn accum_read(self) -> RenderTarget {
        if self.rendering_to_texture_0 {
            self.targets.accumulation_1
        } else {
            self.targets.accumulation_0
        }
    }

    /// The accumulation target the pass writes this frame.
    pub open spec fn accum_write(self) -> RenderTarget {
        if self.rendering_to_texture_0 {
            self.targets.accumulation_0
        } else {
            self.targets.accumulation_1
        }
    }

    /// Well-formedness: the targets are live and match the viewport, the
    /// frame index is at least one, and the accumulation history is fresh:
    /// the side about to be read averages exactly `frame_index - 1` sample
    /// sets, the side about to be written is one frame older still. This is
    /// what makes stale blends impossible.
    pub open spec fn wf(self) -> bool {
        &&& !self.targets.destroyed
        &&& self.targets.all_sized(self.scr_size)
        &&& self.frame_index >= 1
        &&& self.accum_read().content == Self::expected_accum(self.frame_index - 1)
        &&& self.accum_write().content == Self::expected_accum(
            if self.frame_index >= 2 {
                self.frame_index - 2
            } else {
                0
            },
        )
    }

    /// Headroom on the frame index and the upload counters, so one more
    /// frame cannot overflow them.
    pub open spec fn can_render(self) -> bool {
        &&& self.frame_index < u32::MAX
        &&& self.scene_uploads < u64::MAX
        &&& self.settings_uploads < u64::MAX
        &&& self.ray_dir_calcs < u64::MAX
    }

    /// The state after consuming the change signals: any signal resets the
    /// frame index to one and clears the noise and accumulation textures.
    pub open spec fn invalidate_step(self, signals: ChangeSignal) -> Raytracer {
        if signals.spec_any() {
            Raytracer { frame_index: 1u32, targets: self.targets.spec_clear_history(), ..self }
        } else {
            self
        }
    }

    /// Whether this frame re-runs the ray-direction prepass: a resize or
    /// camera change was signalled, or one is still pending from an earlier
    /// `set_scr_size`.
    pub open spec fn spec_run_ray_dirs(self, signals: ChangeSignal) -> bool {
        self.needs_ray_recalc || signals.camera_moved || signals.resized
    }

    /// The state after the (conditional) ray-direction prepass; the pending
    /// flag is consumed either way.
    pub open spec fn ray_dirs_step(self, signals: ChangeSignal) -> Raytracer {
        if self.spec_run_ray_dirs(signals) {
            Raytracer {
                targets: RenderTargetManager {
                    ray_dirs: RenderTarget { content: TexContent::RayDirs, ..self.targets.ray_dirs },
                    ..self.targets
                },
                ray_dir_calcs: (self.ray_dir_calcs + 1) as u64,
                needs_ray_recalc: false,
                ..self
            }
        } else {
            Raytracer { needs_ray_recalc: false, ..self }
        }
    }

    /// The state after the tiered uniform upload: each conditional block
    /// bumps its counter exactly when it is sent.
    pub open spec fn uniforms_step(self, scene_changed: bool, settings_changed: bool) -> Raytracer {
        Raytracer {
            scene_uploads: if self.first_frame || scene_changed {
                (self.scene_uploads + 1) as u64
            } else {
                self.scene_uploads
            },
            settings_uploads: if self.first_frame || settings_changed {
                (self.settings_uploads + 1) as u64
            } else {
                self.settings_uploads
            },
            ..self
        }
    }

    /// The number of sample sets an accumulation buffer averages after one
    /// more frame is blended into it.
    pub open spec fn spec_blend_samples(prev: TexContent) -> int {
        match prev {
            TexContent::Accum { samples } => samples + 1,
            _ => 1,
        }
    }

    /// The state after the unconditional passes of one frame: the noise pass
    /// writes the current side, the accumulation pass blends one sample set
    /// into the read side's average and writes the result to the current
    /// side, the post-process pass presents it; then the frame index
    /// advances and the ping-pong parity flips.
    pub open spec fn passes_step(self) -> Raytracer {
        let fi = self.frame_index;
        let noise_new = TexContent::Noise { frame: fi };
        let accum_new = TexContent::Accum {
            samples: Self::spec_blend_samples(self.accum_read().content) as u32,
        };
        Raytracer {
            targets: if self.rendering_to_texture_0 {
                RenderTargetManager {
                    noise_0: RenderTarget { content: noise_new, ..self.targets.noise_0 },
                    accumulation_0: RenderTarget { content: accum_new, ..self.targets.accumulation_0 },
                    ..self.targets
                }
            } else {
                RenderTargetManager {
                    noise_1: RenderTarget { content: noise_new, ..self.targets.noise_1 },
                    accumulation_1: RenderTarget { content: accum_new, ..self.targets.accumulation_1 },
                    ..self.targets
                }
            },
            frame_index: (fi + 1) as u32,
            first_frame: false,
            rendering_to_texture_0: !self.rendering_to_texture_0,
            ..self
        }
    }

    /// One whole frame: signals, conditional prepass, uniform tiers, then
    /// the unconditional passes.
    pub open spec fn paint_step(self, signals: ChangeSignal) -> Raytracer {
        self.invalidate_step(signals).ray_dirs_step(signals).uniforms_step(
            signals.scene_changed,
            signals.settings_changed,
        ).passes_step()
    }

    /// The plan the same frame hands the host.
    pub open spec fn paint_plan(self, signals: ChangeSignal) -> FramePlan {
        FramePlan {
            frame_index: if signals.spec_any() {
                1u32
            } else {
                self.frame_index
            },
            invalidated: signals.spec_any(),
            run_ray_dirs: self.spec_run_ray_dirs(signals),
            write_to_texture_0: self.rendering_to_texture_0,
            uploads: UniformUploads {
                inv_matrices: self.spec_run_ray_dirs(signals),
                scene_block: self.first_frame || signals.scene_changed,
                settings_block: self.first_frame || signals.settings_changed,
            },
        }
    }

    /// The state after the host reports a viewport size: an unchanged,
    /// unforced size is absorbed without any effect; a new (or forced) size
    /// reallocates every target at the new dimensions, resets the frame
    /// index, and schedules a ray-direction recomputation.
    pub open spec fn set_scr_size_step(self, new_scr_size: ScreenSize) -> Raytracer {
        if !self.force_scr_size && new_scr_size == self.scr_size {
            self
        } else {
            Raytracer {
                scr_size: new_scr_size,
                frame_index: 1u32,
                targets: self.targets.spec_reallocate(new_scr_size),
                needs_ray_recalc: true,
                force_scr_size: false,
                ..self
            }
        }
    }

    /// Builds the pipeline for a viewport of the given size: all shader
    /// programs and render targets created, the ray directions computed
    /// once, the frame index at one and the whole first-frame upload
    /// pending.
    pub fn new(scr_size: ScreenSize) -> (r: Raytracer)
        ensures
            r.wf(),
            r.scr_size == scr_size,
            r.frame_index == 1,
            r.first_frame,
            r.rendering_to_texture_0,
            !r.needs_ray_recalc,
            !r.force_scr_size,
            r.targets.all_sized(scr_size),
            r.targets.ray_dirs.content == TexContent::RayDirs,
            r.targets.noise_0.content == TexContent::Zero,
            r.targets.noise_1.content == TexContent::Zero,
            r.targets.accumulation_0.content == TexContent::Zero,
            r.targets.accumulation_1.content == TexContent::Zero,
            r.scene_uploads == 0,
            r.settings_uploads == 0,
            r.ray_dir_calcs == 1,
            r.can_render(),
    {
        let mut this = Raytracer {
            targets: RenderTargetManager::allocate(scr_size),
            scr_size,
            frame_index: 1,
            first_frame: true,
            rendering_to_texture_0: true,
            needs_ray_recalc: false,
            force_scr_size: false,
            scene_uploads: 0,
            settings_uploads: 0,
            ray_dir_calcs: 0,
        };
        this.calculate_ray_dirs();
        this
    }

    /// Runs the ray-direction prepass: a full-screen draw that writes the
    /// per-pixel world-space ray directions from the camera's inverse
    /// matrices, consuming any pending recomputation request.
    pub fn calculate_ray_dirs(&mut self)
        requires
            !old(self).targets.destroyed,
            old(self).ray_dir_calcs < u64::MAX,
        ensures
            *final(self) == (Raytracer {
                targets: RenderTargetManager {
                    ray_dirs: RenderTarget {
                        content: TexContent::RayDirs,
                        ..old(self).targets.ray_dirs
                    },
                    ..old(self).targets
                },
                ray_dir_calcs: (old(self).ray_dir_calcs + 1) as u64,
                needs_ray_recalc: false,
                ..*old(self)
            }),
    {
        self.targets.ray_dirs.content = TexContent::RayDirs;
        self.ray_dir_calcs = self.ray_dir_calcs + 1;
        self.needs_ray_recalc = false;
    }

    /// Re-creates every render target's texture storage at the given size.
    pub fn realloc_textures(&mut self, scr_size: ScreenSize)
        requires
            !old(self).targets.destroyed,
        ensures
            *final(self) == (Raytracer {
                targets: old(self).targets.spec_reallocate(scr_size),
                ..*old(self)
            }),
    {
        self.targets.reallocate(scr_size);
    }

    /// Clears the noise and accumulation textures to zero, discarding every
    /// accumulated sample.
    pub fn clear_textures(&mut self)
        requires
            !old(self).targets.destroyed,
        ensures
            *final(self) == (Raytracer {
                targets: old(self).targets.spec_clear_history(),
                ..*old(self)
            }),
    {
        self.targets.clear_history();
    }

    /// Absorbs the viewport size the host reports each frame: a no-op when
    /// nothing changed (and no refresh is forced), otherwise a full target
    /// reallocation with the accumulation restarted and the ray directions
    /// scheduled for recomputation.
    pub fn set_scr_size(&mut self, new_scr_size: ScreenSize)
        requires
            old(self).wf(),
        ensures
            *final(self) == old(self).set_scr_size_step(new_scr_size),
            final(self).wf(),
            !old(self).force_scr_size && new_scr_size == old(self).scr_size ==> *final(self)
                == *old(self),
            old(self).force_scr_size || new_scr_size != old(self).scr_size ==> {
                &&& final(self).targets.all_sized(new_scr_size)
                &&& final(self).scr_size == new_scr_size
                &&& final(self).frame_index == 1
                &&& final(self).needs_ray_recalc
            },
    {
        if self.force_scr_size {
            self.force_scr_size = false;
        } else if new_scr_size.width == self.scr_size.width && new_scr_size.height
            == self.scr_size.height {
            return ;
        }
        self.scr_size = new_scr_size;
        self.frame_index = 1;
        self.realloc_textures(new_scr_size);
        self.needs_ray_recalc = true;
    }

    /// Uploads the per-frame scalars a shader program receives every frame.
    pub fn apply_uniforms_common(&self) -> (r: CommonUniforms)
        ensures
            r.scr_size == self.scr_size,
            r.frame_index == self.frame_index,
    {
        CommonUniforms { scr_size: self.scr_size, frame_index: self.frame_index }
    }

    /// Performs the tiered uniform upload of the accumulation program: the
    /// per-frame scalars always, the scene block and the world/settings
    /// block only on the first frame or after the matching change, counting
    /// each conditional upload.
    pub fn apply_uniforms(&mut self, scene_changed: bool, settings_changed: bool) -> (u:
        UniformUploads)
        requires
            old(self).scene_uploads < u64::MAX,
            old(self).settings_uploads < u64::MAX,
        ensures
            *final(self) == old(self).uniforms_step(scene_changed, settings_changed),
            u.scene_block == (old(self).first_frame || scene_changed),
            u.settings_block == (old(self).first_frame || settings_changed),
            !u.inv_matrices,
            final(self).scene_uploads == old(self).scene_uploads + if u.scene_block {
                1int
            } else {
                0int
            },
            final(self).settings_uploads == old(self).settings_uploads + if u.settings_block {
                1int
            } else {
                0int
            },
    {
        let scene_block = self.first_frame || scene_changed;
        let settings_block = self.first_frame || settings_changed;
        if scene_block {
            self.scene_uploads = self.scene_uploads + 1;
        }
        if settings_block {
            self.settings_uploads = self.settings_uploads + 1;
        }
        UniformUploads { inv_matrices: false, scene_block, settings_block }
    }

    /// Renders one frame: consumes the change signals (clearing the history
    /// and restarting the accumulation if any fired), re-runs the
    /// ray-direction prepass if needed, re-uploads the stale uniform tiers,
    /// then runs the noise, accumulation and post-process passes, advances
    /// the frame index and flips the ping-pong parity. Returns the plan the
    /// host mirrors on the GPU.
    pub fn paint(&mut self, signals: ChangeSignal) -> (plan: FramePlan)
        requires
            old(self).wf(),
            old(self).can_render(),
        ensures
            *final(self) == old(self).paint_step(signals),
            plan == old(self).paint_plan(signals),
            final(self).wf(),
            // An undisturbed frame advances the index by exactly one and
            // flips the parity.
            !signals.spec_any() ==> final(self).frame_index == old(self).frame_index + 1,
            signals.spec_any() ==> plan.frame_index == 1 && final(self).frame_index == 2,
            final(self).rendering_to_texture_0 == !old(self).rendering_to_texture_0,
            // The buffer written this frame averages exactly the sample sets
            // accumulated since the last invalidation.
            final(self).accum_read().content == (TexContent::Accum { samples: plan.frame_index }),
            final(self).first_frame == false,
            // The scene and settings tiers are uploaded exactly on the first
            // frame or on their own change.
            plan.uploads.scene_block == (old(self).first_frame || signals.scene_changed),
            plan.uploads.settings_block == (old(self).first_frame || signals.settings_changed),
            plan.run_ray_dirs == (old(self).needs_ray_recalc || signals.camera_moved
                || signals.resized),
    {
        let invalidated = signals.any();
        if invalidated {
            self.frame_index = 1;
            self.clear_textures();
        }
        let run_ray_dirs = self.needs_ray_recalc || signals.camera_moved || signals.resized;
        if run_ray_dirs {
            self.calculate_ray_dirs();
        } else {
            self.needs_ray_recalc = false;
        }
        let uploads = self.apply_uniforms(signals.scene_changed, signals.settings_changed);
        let fi = self.frame_index;

        // Noise pass: write this frame's noise state to the current side,
        // reading the other side's previous state.
        if self.rendering_to_texture_0 {
            self.targets.noise_0.content = TexContent::Noise { frame: fi };
        } else {
            self.targets.noise_1.content = TexContent::Noise { frame: fi };
        }

        // Accumulation pass: blend one new sample set into the average read
        // from the opposite side, writing the current side.
        let prev = if self.rendering_to_texture_0 {
            self.targets.accumulation_1.content
        } else {
            self.targets.accumulation_0.content
        };
        let samples = match prev {
            TexContent::Accum { samples } => samples + 1,
            _ => 1u32,
        };
        if self.rendering_to_texture_0 {
            self.targets.accumulation_0.content = TexContent::Accum { samples };
        } else {
            self.targets.accumulation_1.content = TexContent::Accum { samples };
        }

        // Post-process pass: draw the just-written average to the screen
        // (no model state changes), then advance.
        let write_to_texture_0 = self.rendering_to_texture_0;
        self.first_frame = false;
        self.frame_index = fi + 1;
        self.rendering_to_texture_0 = !self.rendering_to_texture_0;

        FramePlan {
            frame_index: fi,
            invalidated,
            run_ray_dirs,
            write_to_texture_0,
            uploads: UniformUploads { inv_matrices: run_ray_dirs, ..uploads },
        }
    }

    /// Releases every GPU object the pipeline owns. The precondition makes
    /// a second call unstatable: destruction happens exactly once.
    pub fn destroy(&mut self)
        requires
            !old(self).targets.destroyed,
        ensures
            *final(self) == (Raytracer {
                targets: RenderTargetManager { destroyed: true, ..old(self).targets },
                ..*old(self)
            }),
            final(self).targets.destroyed,
    {
        self.targets.destroy();
    }

    /// The state after `n` undisturbed frames (no change signal fires).
    pub open spec fn quiet_run(self, n: nat) -> Raytracer
        decreases n,
    {
        if n == 0 {
            self
        } else {
            self.quiet_run((n - 1) as nat).paint_step(ChangeSignal::spec_quiet())
        }
    }
}

/// Law: rendering a frame preserves the pipeline invariant, whatever the
/// signals: the accumulation history stays exactly as old as the frame index
/// says.
pub proof fn lemma_paint_preserves_wf(s: Raytracer, signals: ChangeSignal)
    requires
        s.wf(),
        s.frame_index < u32::MAX,
    ensures
        s.paint_step(signals).wf(),
{
}

/// Law: over any run of frames with no change signal, the frame index
/// strictly increases by exactly one per frame and the ping-pong parity
/// strictly alternates.
pub proof fn lemma_quiet_frames_advance(s: Raytracer, n: nat)
    requires
        s.frame_index + n <= u32::MAX,
    ensures
        s.quiet_run(n).frame_index == s.frame_index + n,
        s.quiet_run(n).rendering_to_texture_0 == if n % 2 == 0 {
            s.rendering_to_texture_0
        } else {
            !s.rendering_to_texture_0
        },
    decreases n,
{
    if n > 0 {
        lemma_quiet_frames_advance(s, (n - 1) as nat);
    }
}

/// Law: the accumulation pass never blends stale history. After the signals
/// are consumed, the buffer it reads averages exactly `frame_index - 1`
/// sample sets (zero right after an invalidation), and the frame is blended
/// under that post-signal index.
pub proof fn lemma_blend_reads_fresh_history(s: Raytracer, signals: ChangeSignal)
    requires
        s.wf(),
    ensures
        ({
            let s1 = s.invalidate_step(signals);
            &&& s1.accum_read().content == Raytracer::expected_accum(s1.frame_index - 1)
            &&& s.paint_plan(signals).frame_index == s1.frame_index
        }),
{
}

/// Law: a frame on which any change signal fires is blended under frame
/// index one, after both accumulation buffers were cleared to the same
/// (zero) contents; the average it writes holds exactly one sample set, so
/// nothing of the pre-signal history survives.
pub proof fn lemma_invalidation_resets_history(s: Raytracer, signals: ChangeSignal)
    requires
        s.wf(),
        signals.spec_any(),
    ensures
        s.invalidate_step(signals).targets.accumulation_0.content == TexContent::Zero,
        s.invalidate_step(signals).targets.accumulation_1.content
            == s.invalidate_step(signals).targets.accumulation_0.content,
        s.invalidate_step(signals).frame_index == 1,
        s.paint_plan(signals).frame_index == 1,
        s.paint_step(signals).accum_read().content == (TexContent::Accum { samples: 1u32 }),
        s.paint_step(signals).accum_write().content == TexContent::Zero,
{
}

/// Law: reporting a new viewport size resizes every render target to
/// exactly that size and forces exactly one ray-direction recomputation
/// before the next accumulation pass: the next frame runs the prepass, the
/// frame after (still undisturbed) does not.
pub proof fn lemma_resize_recomputes_ray_dirs(s: Raytracer, new_scr_size: ScreenSize)
    requires
        s.wf(),
        s.ray_dir_calcs < u64::MAX,
        s.force_scr_size || new_scr_size != s.scr_size,
    ensures
        ({
            let s1 = s.set_scr_size_step(new_scr_size);
            let quiet = ChangeSignal::spec_quiet();
            &&& s1.targets.all_sized(new_scr_size)
            &&& s1.scr_size == new_scr_size
            &&& s1.paint_plan(quiet).run_ray_dirs
            &&& s1.paint_step(quiet).ray_dir_calcs == s.ray_dir_calcs + 1
            &&& !s1.paint_step(quiet).paint_plan(quiet).run_ray_dirs
        }),
{
}

/// Law: the scene uniform block is uploaded exactly on the first frame and
/// on frames where the scene changed; the world/settings block exactly on
/// the first frame and on frames where the settings changed. No other frame
/// re-uploads either block.
pub proof fn lemma_upload_tiers(s: Raytracer, signals: ChangeSignal)
    requires
        s.scene_uploads < u64::MAX,
        s.settings_uploads < u64::MAX,
    ensures
        s.paint_plan(signals).uploads.scene_block <==> (s.first_frame || signals.scene_changed),
        s.paint_plan(signals).uploads.settings_block <==> (s.first_frame
            || signals.settings_changed),
        s.paint_step(signals).scene_uploads == s.scene_uploads + if s.first_frame
            || signals.scene_changed {
            1int
        } else {
            0int
        },
        s.paint_step(signals).settings_uploads == s.settings_uploads + if s.first_frame
            || signals.settings_changed {
            1int
        } else {
            0int
        },
{
}

/// Law: the pipeline invariant survives any run of undisturbed frames: the
/// accumulation history can grow forever, bounded only by the index's
/// arithmetic headroom.
pub proof fn lemma_quiet_run_preserves_wf(s: Raytracer, n: nat)
    requires
        s.wf(),
        s.frame_index + n <= u32::MAX,
    ensures
        s.quiet_run(n).wf(),
    decreases n,
{
    if n > 0 {
        lemma_quiet_run_preserves_wf(s, (n - 1) as nat);
        lemma_quiet_frames_advance(s, (n - 1) as nat);
        lemma_paint_preserves_wf(s.quiet_run((n - 1) as nat), ChangeSignal::spec_quiet());
    }
}

/// Law: once past its first frame, a pipeline left undisturbed never
/// re-uploads the scene or the world/settings block, however many frames it
/// renders.
pub proof fn lemma_quiet_frames_no_reupload(s: Raytracer, n: nat)
    requires
        !s.first_frame,
    ensures
        s.quiet_run(n).scene_uploads == s.scene_uploads,
        s.quiet_run(n).settings_uploads == s.settings_uploads,
        !s.quiet_run(n).first_frame || n == 0,
    decreases n,
{
    if n > 0 {
        lemma_quiet_frames_no_reupload(s, (n - 1) as nat);
    }
}

} // verus!
