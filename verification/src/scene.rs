//! Model of the per-tick scene description.
//!
//! The scene's draw commands come from an external builder invoked once per
//! tick after clearing, and the core treats that content opaquely. All the
//! lifecycle logic reads from a scene is which (width, height) it was built
//! for, so that is the model: a scene holds no state across ticks beyond the
//! dimensions of its last rebuild.

use vstd::prelude::*;

verus! {

/// The ordered draw commands of one frame, reduced to the one fact the
/// lifecycle rules depend on: the size of the frame they were built for.
pub struct SceneDescription {
    /// Whether the external builder has populated the scene this tick.
    pub populated: bool,
    /// Width the scene was last built for.
    pub built_width: u32,
    /// Height the scene was last built for.
    pub built_height: u32,
}

impl SceneDescription {
    /// The scene currently holds commands built for a (width, height) frame.
    pub open spec fn built_for(self, width: u32, height: u32) -> bool {
        &&& self.populated
        &&& self.built_width == width
        &&& self.built_height == height
    }

    /// An empty scene: nothing has been built yet.
    pub fn new() -> (s: SceneDescription)
        ensures
            !s.populated,
    {
        SceneDescription { populated: false, built_width: 0, built_height: 0 }
    }

    /// Clear the scene and repopulate it for a (width, height) frame: the
    /// point at which the external builder `build(scene, elapsed, w, h)` is
    /// invoked with the commands themselves, which this core never inspects.
    pub fn rebuild(&mut self, width: u32, height: u32)
        ensures
            final(self).built_for(width, height),
    {
        self.populated = true;
        self.built_width = width;
        self.built_height = height;
    }
}

} // verus!
