//! Animations: the frame-counting that decides when an animation iterator
//! yields another frame and when it is exhausted. The easing and the actual
//! rendering of each frame live with the floating-point rendering backend.

use vstd::prelude::*;

verus! {

/// Progress bookkeeping of one animation: how many frames it spans and how
/// many were already produced.
#[derive(Debug, Clone, Copy, PartialEq, Eq, Structural)]
pub struct AnimationConfig {
    pub total_frame: u32,
    pub current_frame: u32,
}

impl AnimationConfig {
    /// The frame-advance decision of an animation iterator: counts one more
    /// frame while any remain and says which frame to render, or `None` once
    /// the animation is exhausted.
    pub fn advance(&mut self) -> (r: Option<u32>)
        ensures
            final(self).total_frame == old(self).total_frame,
            old(self).current_frame < old(self).total_frame ==> final(self).current_frame == old(
                self,
            ).current_frame + 1 && r == Some((old(self).current_frame + 1) as u32),
            old(self).current_frame >= old(self).total_frame ==> *final(self) == *old(self)
                && r is None,
    {
        if self.current_frame < self.total_frame {
            self.current_frame = self.current_frame + 1;
            Some(self.current_frame)
        } else {
            None
        }
    }
}

} // verus!
