//! Last frame's depth as a pyramid: when there is one, and whether a cull may
//! trust it.
//!
//! Two copies take turns: one is written while the other, a frame old, is tested
//! against.

use crate::extents::{
    base_extent, bound_levels, chain, chain_ends_at_one_texel, dispatch_over, groups_spec, larger,
    level_size, levels_for, HIZ_TILE, OCCLUSION_LEVELS,
};
use vstd::prelude::*;

verus! {

/// Which pyramids a frame works with.
#[derive(Debug)]
pub struct OcclusionPass {
    /// Whether the two pyramids are allocated.
    pub allocated: bool,
    /// The frame's extent they were allocated for.
    pub extent: [u32; 2],
    pub frame: u64,
    /// Frames since they were allocated.
    pub age: u32,
}

/// A pyramid to allocate, twice.
#[derive(Clone, Copy, Debug)]
pub struct PyramidShape {
    pub base: [u32; 2],
    pub levels: u32,
}

/// What a frame begins with.
#[derive(Clone, Copy, Debug)]
pub struct Begin {
    /// The pyramids to allocate first, where the ones there are will not do.
    pub allocate: Option<PyramidShape>,
    /// Whether there is a pyramid of an earlier frame to test against.
    pub live: bool,
}

/// What a cull tests against: one of the two pyramids, or a stand-in that hides
/// nothing.
#[derive(Clone, Copy, Debug, PartialEq, Eq, Structural)]
pub struct OcclusionTest {
    pub pyramid: Option<usize>,
    pub live: bool,
}

/// The dispatch that reduces a frame's depth to a pyramid.
#[derive(Debug)]
pub struct PyramidBuild {
    /// Which of the two it fills.
    pub pyramid: usize,
    /// The level behind each slot of the shader's array.
    pub bound: Vec<u32>,
    /// The depth buffer's extent, and not the pyramid's.
    pub width: i32,
    pub height: i32,
    pub levels: i32,
    pub groups: [u32; 3],
}

/// How many levels the pyramids of a frame of this extent have.
pub open spec fn levels_at(extent: [u32; 2]) -> nat {
    let deepest = chain(larger(larger(extent[0] / 2, 1), larger(extent[1] / 2, 1)) as nat);
    if deepest < OCCLUSION_LEVELS {
        deepest
    } else {
        OCCLUSION_LEVELS as nat
    }
}

impl OcclusionPass {
    /// Whether the pyramids there are will do for a frame of this extent.
    pub open spec fn fits(&self, extent: [u32; 2]) -> bool {
        self.allocated && self.extent@ == extent@
    }

    pub fn new() -> (pass: Self)
        ensures
            !pass.allocated,
            pass.extent == [0u32, 0u32],
            pass.frame == 0,
            pass.age == 0,
    {
        OcclusionPass { allocated: false, extent: [0, 0], frame: 0, age: 0 }
    }

    /// Begin a frame. Off drops the pyramids; another extent replaces them, and
    /// what is new has nothing in it to test against yet.
    pub fn begin_frame(&mut self, enabled: bool, extent: [u32; 2]) -> (begin: Begin)
        ensures
            !enabled ==> {
                &&& !final(self).allocated
                &&& final(self).age == 0
                &&& final(self).extent == old(self).extent
                &&& final(self).frame == old(self).frame
                &&& begin.allocate is None
                &&& !begin.live
            },
            enabled ==> {
                &&& final(self).allocated
                &&& final(self).extent@ == extent@
                &&& final(self).frame == (if old(self).frame == u64::MAX {
                    0
                } else {
                    old(self).frame + 1
                })
                &&& begin.allocate is Some <==> !old(self).fits(extent)
                &&& begin.live == (old(self).fits(extent) && old(self).age > 0)
                &&& final(self).age == (if !old(self).fits(extent) {
                    1
                } else if old(self).age == u32::MAX {
                    u32::MAX as int
                } else {
                    old(self).age + 1
                })
                &&& begin.allocate matches Some(shape) ==> {
                    &&& shape.base[0] == larger(extent[0] / 2, 1)
                    &&& shape.base[1] == larger(extent[1] / 2, 1)
                    &&& shape.levels == levels_at(extent)
                }
            },
    {
        if !enabled {
            self.allocated = false;
            self.age = 0;
            return Begin { allocate: None, live: false };
        }
        let resized = self.extent[0] != extent[0] || self.extent[1] != extent[1];
        proof {
            if !resized {
                assert(self.extent@ =~= extent@);
            }
        }
        let mut allocate: Option<PyramidShape> = None;
        if !self.allocated || resized {
            let base = base_extent(extent);
            allocate = Some(PyramidShape { base, levels: levels_for(base) });
            self.allocated = true;
            self.extent = extent;
            self.age = 0;
        }
        self.frame = self.frame.wrapping_add(1);
        let live = self.age > 0;
        self.age = self.age.saturating_add(1);
        Begin { allocate, live }
    }

    /// The pyramid this frame writes.
    pub open spec fn written(&self) -> int {
        self.frame as int % 2
    }

    /// The pyramid this frame tests against.
    pub open spec fn tested(&self) -> int {
        (self.frame + 1) % 2
    }

    pub fn hiz_view(&self) -> (pyramid: usize)
        ensures
            pyramid == self.written(),
    {
        (self.frame % 2) as usize
    }

    pub fn history_view(&self) -> (pyramid: usize)
        ensures
            pyramid == self.tested(),
    {
        (1 - self.frame % 2) as usize
    }

    /// What the cull tests against: nothing hides where there is no pyramid.
    pub fn test(&self, live: bool) -> (test: OcclusionTest)
        ensures
            self.allocated ==> test == (OcclusionTest {
                pyramid: Some(self.tested() as usize),
                live,
            }),
            !self.allocated ==> test == (OcclusionTest { pyramid: None, live: false }),
    {
        if self.allocated {
            OcclusionTest { pyramid: Some(self.history_view()), live }
        } else {
            OcclusionTest { pyramid: None, live: false }
        }
    }

    /// Reduce this frame's depth into every level of this frame's pyramid, with a
    /// workgroup to every tile of the depth buffer.
    pub fn record(&self, extent: [u32; 2]) -> (build: PyramidBuild)
        requires
            self.allocated,
        ensures
            build.pyramid == self.written(),
            build.bound@.len() == OCCLUSION_LEVELS,
            forall|slot: int|
                0 <= slot < OCCLUSION_LEVELS ==> #[trigger] build.bound@[slot] == (if slot
                    < levels_at(self.extent) {
                    slot
                } else {
                    levels_at(self.extent) - 1
                }),
            build.width == extent[0] as i32,
            build.height == extent[1] as i32,
            build.levels == levels_at(self.extent),
            build.groups[0] == groups_spec(extent[0] as nat, HIZ_TILE as nat),
            build.groups[1] == groups_spec(extent[1] as nat, HIZ_TILE as nat),
            build.groups[2] == 1,
    {
        let levels: u32 = levels_for(base_extent(self.extent));
        PyramidBuild {
            pyramid: self.hiz_view(),
            bound: bound_levels(OCCLUSION_LEVELS, levels),
            width: #[verifier::truncate] (extent[0] as i32),
            height: #[verifier::truncate] (extent[1] as i32),
            levels: levels as i32,
            groups: dispatch_over(extent, HIZ_TILE),
        }
    }
}

/// **A frame never reads the pyramid it writes.**
pub proof fn pyramids_take_turns(pass: OcclusionPass)
    ensures
        pass.written() != pass.tested(),
{
}

/// **What is tested against was written a frame ago.** The pyramid a frame tests
/// against is the one the frame before it wrote.
pub proof fn history_is_the_last_frame(before: OcclusionPass, after: OcclusionPass)
    requires
        before.frame < u64::MAX,
        after.frame == before.frame + 1,
    ensures
        after.tested() == before.written(),
{
}

/// **A pyramid is as deep as its tile reduces, or ends at one texel.** Its base is half
/// the frame; where it is shorter than it might be, there is nothing left to halve.
pub proof fn pyramids_stop_at_one_texel(extent: [u32; 2])
    ensures
        ({
            let base = larger(larger(extent[0] / 2, 1), larger(extent[1] / 2, 1)) as nat;
            &&& 1 <= levels_at(extent) <= 6
            &&& levels_at(extent) < 6 ==> level_size(base, (levels_at(extent) - 1) as nat) == 1
            &&& forall|level: nat|
                level + 1 < levels_at(extent) ==> #[trigger] level_size(base, level) > 1
        }),
{
    let base = larger(larger(extent[0] / 2, 1), larger(extent[1] / 2, 1)) as nat;
    chain_ends_at_one_texel(base);
}

/// **Pyramids are kept for as long as the frame is as large**, both ways.
pub proof fn pyramids_fit_their_frame(pass: OcclusionPass, extent: [u32; 2])
    ensures
        pass.fits(extent) <==> pass.allocated && pass.extent[0] == extent[0] && pass.extent[1]
            == extent[1],
        0 <= pass.written() < 2,
        0 <= pass.tested() < 2,
{
    if pass.extent[0] == extent[0] && pass.extent[1] == extent[1] {
        assert(pass.extent@ =~= extent@);
    }
    assert(pass.extent[0] == pass.extent@[0] && pass.extent[1] == pass.extent@[1]);
    assert(extent[0] == extent@[0] && extent[1] == extent@[1]);
}

} // verus!
