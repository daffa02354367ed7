//! The surface set: which texture receives the next frame.
//!
//! Two configurations exist. The primary path holds two surfaces and
//! alternates between them on every render, so the surface being written is
//! never the one most recently handed to the host — the host compositor may
//! still be reading that one. The compatibility path holds a single surface
//! plus a CPU readback buffer: the frame is copied out to CPU memory each
//! tick, so the host never touches the texture itself and one surface
//! suffices.

use vstd::prelude::*;

use crate::device::DeviceHandle;
use crate::readback::ReadbackBuffer;
use crate::scene::SceneDescription;
use crate::surface::RenderSurface;

verus! {

/// Either one surface with its readback staging buffer, or two alternating
/// surfaces and the index of the one rendered most recently.
pub enum SurfaceSet {
    /// Compatibility path: render, then copy to CPU memory.
    Single { surface: RenderSurface, readback: ReadbackBuffer },
    /// Primary path: direct texture hand-off, double-buffered.
    Double { surface0: RenderSurface, surface1: RenderSurface, current_index: u8 },
}

/// The index the double-buffer moves to when it flips once from `index`.
pub open spec fn spec_flip(index: int) -> int {
    1 - index
}

/// The index the double-buffer reaches after `n` renders starting at `index`:
/// every render flips exactly once.
pub open spec fn index_after_renders(index: int, n: nat) -> int
    decreases n,
{
    if n == 0 {
        index
    } else {
        spec_flip(index_after_renders(index, (n - 1) as nat))
    }
}

/// The double-buffer index alternates strictly: after `n` renders from index
/// `index` (0 or 1), the index is `(index + n) mod 2`; in particular, from
/// index 0 it is `n mod 2`.
pub proof fn lemma_index_alternates(index: int, n: nat)
    requires
        index == 0 || index == 1,
    ensures
        index_after_renders(index, n) == (index + n) % 2,
    decreases n,
{
    if n > 0 {
        lemma_index_alternates(index, (n - 1) as nat);
    }
}

impl SurfaceSet {
    /// Well-formed: every surface is at least (1, 1); in the single
    /// configuration the readback buffer is sized for the surface; in the
    /// double configuration the two surfaces are equally sized, are distinct
    /// textures, and the index is 0 or 1.
    pub open spec fn wf(self) -> bool {
        match self {
            SurfaceSet::Single { surface, readback } => {
                &&& surface.wf()
                &&& readback.sized_for(surface)
            },
            SurfaceSet::Double { surface0, surface1, current_index } => {
                &&& surface0.wf()
                &&& surface1.wf()
                &&& surface0.width == surface1.width
                &&& surface0.height == surface1.height
                &&& surface0.texture_id != surface1.texture_id
                &&& current_index <= 1
            },
        }
    }

    /// Width of the surfaces in the set.
    pub open spec fn spec_width(self) -> u32 {
        match self {
            SurfaceSet::Single { surface, .. } => surface.width,
            SurfaceSet::Double { surface0, .. } => surface0.width,
        }
    }

    /// Height of the surfaces in the set.
    pub open spec fn spec_height(self) -> u32 {
        match self {
            SurfaceSet::Single { surface, .. } => surface.height,
            SurfaceSet::Double { surface0, .. } => surface0.height,
        }
    }

    /// The double-buffer index; a single-buffered set sits at 0.
    pub open spec fn spec_index(self) -> int {
        match self {
            SurfaceSet::Single { .. } => 0,
            SurfaceSet::Double { current_index, .. } => current_index as int,
        }
    }

    /// The texture of the surface rendered most recently (for a fresh set,
    /// the one the first render will not target).
    pub open spec fn current_texture(self) -> u64 {
        match self {
            SurfaceSet::Single { surface, .. } => surface.texture_id,
            SurfaceSet::Double { surface0, surface1, current_index } => {
                if current_index == 0 {
                    surface0.texture_id
                } else {
                    surface1.texture_id
                }
            },
        }
    }

    /// The set holds a texture with this identity.
    pub open spec fn owns(self, id: u64) -> bool {
        match self {
            SurfaceSet::Single { surface, .. } => id == surface.texture_id,
            SurfaceSet::Double { surface0, surface1, .. } => {
                id == surface0.texture_id || id == surface1.texture_id
            },
        }
    }

    /// Every texture of the set was allocated by the given device.
    pub open spec fn valid_for(self, device: DeviceHandle) -> bool {
        match self {
            SurfaceSet::Single { surface, .. } => surface.allocated_by(device),
            SurfaceSet::Double { surface0, surface1, .. } => {
                &&& surface0.allocated_by(device)
                &&& surface1.allocated_by(device)
            },
        }
    }

    /// The set uses the double-buffered direct hand-off path.
    pub open spec fn double_buffered(self) -> bool {
        self is Double
    }

    /// Width of the surfaces in the set.
    pub fn width(&self) -> (w: u32)
        ensures
            w == self.spec_width(),
    {
        match self {
            SurfaceSet::Single { surface, .. } => surface.width,
            SurfaceSet::Double { surface0, .. } => surface0.width,
        }
    }

    /// Identity of the surface rendered most recently.
    pub fn current_texture_id(&self) -> (id: u64)
        ensures
            id == self.current_texture(),
    {
        match self {
            SurfaceSet::Single { surface, .. } => surface.texture_id,
            SurfaceSet::Double { surface0, surface1, current_index } => {
                if *current_index == 0 {
                    surface0.texture_id
                } else {
                    surface1.texture_id
                }
            },
        }
    }

    /// Height of the surfaces in the set.
    pub fn height(&self) -> (h: u32)
        ensures
            h == self.spec_height(),
    {
        match self {
            SurfaceSet::Single { surface, .. } => surface.height,
            SurfaceSet::Double { surface0, .. } => surface0.height,
        }
    }

    /// Create a surface set of the given size: double-buffered when the host
    /// can import GPU textures directly, single-buffered with a readback
    /// staging buffer otherwise. The index starts at 0.
    pub fn create(device: &mut DeviceHandle, width: u32, height: u32, direct_handoff: bool) -> (s:
        SurfaceSet)
        requires
            width >= 1,
            height >= 1,
            old(device).next_texture_id <= u64::MAX - 2,
        ensures
            s.wf(),
            s.valid_for(*final(device)),
            s.spec_width() == width,
            s.spec_height() == height,
            s.spec_index() == 0,
            s.double_buffered() == direct_handoff,
            old(device).next_texture_id <= final(device).next_texture_id <= old(
                device,
            ).next_texture_id + 2,
            forall|id: u64| s.owns(id) ==> id >= old(device).next_texture_id,
    {
        if direct_handoff {
            let surface0 = RenderSurface::create(device, width, height);
            let surface1 = RenderSurface::create(device, width, height);
            SurfaceSet::Double { surface0, surface1, current_index: 0 }
        } else {
            let surface = RenderSurface::create(device, width, height);
            let readback = ReadbackBuffer::create(&surface);
            SurfaceSet::Single { surface, readback }
        }
    }

    /// Resize the set to (width, height): a no-op when the size is unchanged,
    /// otherwise every surface (and the readback buffer, when present) is
    /// reallocated wholesale and no prior texture of the set is referenced
    /// any longer.
    pub fn resize(&mut self, device: &mut DeviceHandle, width: u32, height: u32)
        requires
            old(self).wf(),
            old(self).valid_for(*old(device)),
            width >= 1,
            height >= 1,
            old(device).next_texture_id <= u64::MAX - 2,
        ensures
            final(self).wf(),
            final(self).valid_for(*final(device)),
            final(self).spec_width() == width,
            final(self).spec_height() == height,
            final(self).double_buffered() == old(self).double_buffered(),
            final(self).spec_index() == old(self).spec_index(),
            old(self).spec_width() == width && old(self).spec_height() == height ==> {
                &&& *final(self) == *old(self)
                &&& *final(device) == *old(device)
            },
            old(self).spec_width() != width || old(self).spec_height() != height ==> forall|
                id: u64,
            |
                old(self).owns(id) ==> !final(self).owns(id),
            old(device).next_texture_id <= final(device).next_texture_id <= old(
                device,
            ).next_texture_id + 2,
    {
        if self.width() == width && self.height() == height {
            return;
        }
        match self {
            SurfaceSet::Single { surface, readback } => {
                *surface = RenderSurface::create(device, width, height);
                *readback = ReadbackBuffer::create(surface);
            },
            SurfaceSet::Double { surface0, surface1, .. } => {
                *surface0 = RenderSurface::create(device, width, height);
                *surface1 = RenderSurface::create(device, width, height);
            },
        }
    }

    /// Pick the surface that receives this frame and return its texture.
    ///
    /// Double-buffered: the index flips (0 and 1 alternate strictly), the
    /// scene is rasterized into the surface now at the index, and the texture
    /// returned is never the one returned by the previous render — the host
    /// may still be consuming that one. Single-buffered: the one surface is
    /// the target every tick, and the frame reaches the host through the
    /// readback copy instead of this handle.
    ///
    /// The scene must have been built for the set's current size: a scene is
    /// never rasterized into a surface still sized for an older request. The
    /// rasterization itself is the backend's invocation on the returned
    /// target.
    pub fn render(&mut self, scene: &SceneDescription) -> (target: u64)
        requires
            old(self).wf(),
            scene.built_for(old(self).spec_width(), old(self).spec_height()),
        ensures
            final(self).wf(),
            final(self).spec_width() == old(self).spec_width(),
            final(self).spec_height() == old(self).spec_height(),
            final(self).double_buffered() == old(self).double_buffered(),
            forall|id: u64| final(self).owns(id) == old(self).owns(id),
            forall|device: DeviceHandle|
                old(self).valid_for(device) ==> #[trigger] final(self).valid_for(device),
            final(self).owns(target),
            target == final(self).current_texture(),
            *old(self) is Double ==> final(self).spec_index() == index_after_renders(
                old(self).spec_index(),
                1,
            ),
            *old(self) is Single ==> {
                &&& *final(self) == *old(self)
                &&& target == old(self).current_texture()
            },
            *old(self) is Double ==> target != old(self).current_texture(),
    {
        proof {
            reveal_with_fuel(index_after_renders, 2);
        }
        match self {
            SurfaceSet::Single { surface, .. } => surface.texture_id,
            SurfaceSet::Double { surface0, surface1, current_index } => {
                let next: u8 = 1 - *current_index;
                *current_index = next;
                if next == 0 {
                    surface0.texture_id
                } else {
                    surface1.texture_id
                }
            },
        }
    }
}

} // verus!
