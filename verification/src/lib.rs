//! Core of a progressively-refining path tracer: the frame scheduler, the
//! render-target arena, the uniform-upload tiering, and the scene's
//! parallel-array bookkeeping.
//!
//! The library is the CPU-side orchestration model. It decides, each frame,
//! which GPU passes must re-run, which uniform blocks must be re-uploaded,
//! and how the ping-pong buffers and the accumulation counter advance; the
//! host executes those decisions against the real GPU and feeds change
//! signals back in. Real-valued parameters (colors, angles, matrices) are
//! carried as opaque 32-bit payloads: the core stores and moves them but
//! never computes with them, so their numeric interpretation stays with the
//! host.

pub mod render;
pub mod scene;
pub mod settings;
pub mod util;

use vstd::prelude::*;

verus! {

/// Upper bound on the number of scene objects; the GPU-side uniform arrays
/// are statically sized to this many slots.
pub const MAX_OBJECTS: usize = 50;

} // verus!
