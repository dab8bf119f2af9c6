//! Small shared helpers: padding a slot vector to the fixed uniform-array
//! length, and the traits through which window responses are reset and fed
//! back into the shared state.

use vstd::prelude::*;

verus! {

/// Pads `sl` to exactly [`crate::MAX_OBJECTS`] entries, keeping the given
/// prefix and filling the rest with zeroes. The GPU-side uniform arrays have
/// a fixed length, so every upload sends exactly this many words.
pub fn fill_50(sl: &Vec<u32>) -> (r: Vec<u32>)
    requires
        sl@.len() <= crate::MAX_OBJECTS,
    ensures
        r@.len() == crate::MAX_OBJECTS,
        forall|i: int| 0 <= i < sl@.len() ==> r@[i] == sl@[i],
        forall|i: int| sl@.len() <= i < crate::MAX_OBJECTS ==> r@[i] == 0u32,
{
    let mut r: Vec<u32> = Vec::new();
    let mut i: usize = 0;
    while i < sl.len()
        invariant
            i <= sl@.len(),
            sl@.len() <= crate::MAX_OBJECTS,
            r@.len() == i,
            forall|j: int| 0 <= j < i ==> r@[j] == sl@[j],
        decreases sl@.len() - i,
    {
        r.push(sl[i]);
        i = i + 1;
    }
    while r.len() < crate::MAX_OBJECTS
        invariant
            sl@.len() <= r@.len() <= crate::MAX_OBJECTS,
            forall|j: int| 0 <= j < sl@.len() ==> r@[j] == sl@[j],
            forall|j: int| sl@.len() <= j < r@.len() ==> r@[j] == 0u32,
        decreases crate::MAX_OBJECTS - r@.len(),
    {
        r.push(0u32);
    }
    r
}

/// A response that can be put back into its between-frames state once the
/// scheduler has consumed it.
pub trait Reset: Sized {
    /// The between-frames state: everything acknowledged, nothing pending.
    spec fn reset_spec() -> Self;

    /// Builds the between-frames state.
    fn reset_state() -> (r: Self)
        ensures
            r == Self::reset_spec(),
    ;

    /// Puts `self` back into the between-frames state.
    fn reset(&mut self)
        ensures
            *final(self) == Self::reset_spec(),
    ;
}

/// State bundles that accumulate "was edited" / "has keyboard focus" flags
/// from the host's widgets over one frame.
pub trait UpdateResponse {
    /// The accumulated focus flag.
    spec fn focused_flag(self) -> bool;

    /// The accumulated change flag.
    spec fn changed_flag(self) -> bool;

    /// Ors `focused` into the focus flag; the change flag is untouched.
    fn set_focused(&mut self, focused: bool)
        ensures
            final(self).focused_flag() == (old(self).focused_flag() || focused),
            final(self).changed_flag() == old(self).changed_flag(),
    ;

    /// Ors `changed` into the change flag; the focus flag is untouched.
    fn set_changed(&mut self, changed: bool)
        ensures
            final(self).changed_flag() == (old(self).changed_flag() || changed),
            final(self).focused_flag() == old(self).focused_flag(),
    ;
}

} // verus!
