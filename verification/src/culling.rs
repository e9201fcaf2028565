//! The frustum-culling switch, and the counts the last extraction produced.

use vstd::prelude::*;

verus! {

/// The counts live with the switch because they only mean anything together:
/// "412 of 1000" is a measurement of this pass, and the switch is how you check
/// that the 588 it dropped really were off screen.
#[derive(Clone, Copy, Debug)]
pub struct Culling {
    /// When false every renderable is drawn, whatever the frustum says.
    pub enabled: bool,
    /// `None` when the frustum test ran on the GPU, which is where the answer
    /// then is.
    visible: Option<usize>,
    total: usize,
}

impl Default for Culling {
    fn default() -> (culling: Self)
        ensures
            culling.enabled_spec(),
            culling.visible_spec() is None,
            culling.total_spec() == 0,
    {
        Culling { enabled: true, visible: None, total: 0 }
    }
}

impl Culling {
    pub closed spec fn enabled_spec(&self) -> bool {
        self.enabled
    }

    pub closed spec fn visible_spec(&self) -> Option<usize> {
        self.visible
    }

    pub closed spec fn total_spec(&self) -> usize {
        self.total
    }

    pub fn record(&mut self, visible: Option<usize>, total: usize)
        ensures
            final(self).visible_spec() == visible,
            final(self).total_spec() == total,
            final(self).enabled_spec() == old(self).enabled_spec(),
    {
        self.visible = visible;
        self.total = total;
    }

    pub fn visible(&self) -> (visible: Option<usize>)
        ensures
            visible == self.visible_spec(),
    {
        self.visible
    }

    pub fn total(&self) -> (total: usize)
        ensures
            total == self.total_spec(),
    {
        self.total
    }

    /// How many were dropped, where it is known.
    pub fn culled(&self) -> (culled: Option<usize>)
        ensures
            culled is Some <==> self.visible_spec() is Some,
            culled is Some ==> culled->0 == (if self.visible_spec()->0 <= self.total_spec() {
                self.total_spec() - self.visible_spec()->0
            } else {
                0
            }),
    {
        match self.visible {
            Some(visible) => Some(self.total.saturating_sub(visible)),
            None => None,
        }
    }
}

} // verus!
