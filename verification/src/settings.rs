//! The switches that change what a frame measures or stamps, and none of its
//! structure.

use vstd::prelude::*;

verus! {

/// Whether the frame projects decals at all.
///
/// Not frame structure: decals add no pass and no render target, so switching it
/// reallocates nothing. Off means the per-fragment loop is skipped on a branch
/// that is uniform across the whole frame.
#[derive(Clone, Copy, Debug)]
pub struct DecalSettings {
    pub enabled: bool,
}

impl Default for DecalSettings {
    fn default() -> (settings: Self)
        ensures
            settings.enabled,
    {
        DecalSettings { enabled: true }
    }
}

/// What the frame measures about itself.
///
/// Every field moves a number and never a pixel of the scene: a performance
/// figure is comparable only to one taken with the same values.
#[derive(Clone, Copy, Debug)]
pub struct Diagnostics {
    /// Whether the editor's overlay is built and drawn at all. Off takes the
    /// whole editor out of the frame, down to the graph's overlay pass.
    pub overlay: bool,
}

impl Default for Diagnostics {
    fn default() -> (diagnostics: Self)
        ensures
            diagnostics.overlay,
    {
        Diagnostics { overlay: true }
    }
}

} // verus!
