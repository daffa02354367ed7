//! The render surface: one GPU texture owned by this core.
//!
//! The real texture is fixed to a 2D, single-mip, single-sample, RGBA8-unorm
//! allocation usable as a render target, for sampling or storage, and — when
//! the readback fallback is on — as a copy source. None of that varies, so the
//! model keeps what the lifecycle logic actually reads: the texture's identity
//! and its dimensions.

use vstd::prelude::*;

use crate::device::DeviceHandle;

verus! {

/// One GPU texture, by identity and size. Content is undefined until the next
/// render, so it is not modeled.
pub struct RenderSurface {
    /// Identity of the texture; fresh on every allocation.
    pub texture_id: u64,
    /// Width in pixels, at least 1.
    pub width: u32,
    /// Height in pixels, at least 1.
    pub height: u32,
}

impl RenderSurface {
    /// A surface is never sized (0, h) or (w, 0): callers clamp to (1, 1)
    /// before first creation and skip the tick on a zero request.
    pub open spec fn wf(self) -> bool {
        self.width >= 1 && self.height >= 1
    }

    /// The surface's texture was allocated by the given device.
    pub open spec fn allocated_by(self, device: DeviceHandle) -> bool {
        self.texture_id < device.next_texture_id
    }

    /// Allocate a texture of the given size. Its identity is fresh: no surface
    /// allocated earlier from this device holds it.
    pub fn create(device: &mut DeviceHandle, width: u32, height: u32) -> (s: RenderSurface)
        requires
            width >= 1,
            height >= 1,
            old(device).next_texture_id < u64::MAX,
        ensures
            s.wf(),
            s.width == width,
            s.height == height,
            s.texture_id == old(device).next_texture_id,
            final(device).next_texture_id == old(device).next_texture_id + 1,
            s.allocated_by(*final(device)),
    {
        let texture_id: u64 = device.alloc_texture_id();
        RenderSurface { texture_id, width, height }
    }

    /// Resize to (width, height): a no-op when the size is unchanged,
    /// otherwise a full reallocation that discards the prior texture — the
    /// prior identity is no longer referenced by this surface.
    pub fn resize(&mut self, device: &mut DeviceHandle, width: u32, height: u32)
        requires
            old(self).wf(),
            old(self).allocated_by(*old(device)),
            width >= 1,
            height >= 1,
            old(device).next_texture_id < u64::MAX,
        ensures
            final(self).wf(),
            final(self).width == width,
            final(self).height == height,
            final(self).allocated_by(*final(device)),
            old(self).width == width && old(self).height == height ==> {
                &&& *final(self) == *old(self)
                &&& *final(device) == *old(device)
            },
            old(self).width != width || old(self).height != height ==> {
                &&& final(self).texture_id == old(device).next_texture_id
                &&& final(self).texture_id != old(self).texture_id
                &&& final(device).next_texture_id == old(device).next_texture_id + 1
            },
    {
        if self.width == width && self.height == height {
            return;
        }
        *self = RenderSurface::create(device, width, height);
    }
}

} // verus!
