//! Model of the borrowed graphics device.
//!
//! The device and queue are supplied by the host each tick and are never owned
//! by this core. All the lifecycle logic ever reads from the real device is the
//! identity of the textures it allocates, so the model is exactly that: an
//! allocator of texture identities, each handed out at most once.

use vstd::prelude::*;

verus! {

/// The borrowed device + queue pair, modeled as a mint of texture identities.
///
/// Every texture allocation draws a fresh identity; two textures alive at the
/// same time therefore never share one, which is what the double-buffering and
/// reallocation arguments rest on.
pub struct DeviceHandle {
    /// Identities strictly below this value have already been handed out.
    pub next_texture_id: u64,
}

impl DeviceHandle {
    /// A device that has not allocated any texture yet.
    pub fn new() -> (d: DeviceHandle)
        ensures
            d.next_texture_id == 0,
    {
        DeviceHandle { next_texture_id: 0 }
    }

    /// Allocate a texture identity this device has never handed out before.
    pub fn alloc_texture_id(&mut self) -> (id: u64)
        requires
            old(self).next_texture_id < u64::MAX,
        ensures
            id == old(self).next_texture_id,
            final(self).next_texture_id == old(self).next_texture_id + 1,
    {
        let id: u64 = self.next_texture_id;
        self.next_texture_id = self.next_texture_id + 1;
        id
    }
}

} // verus!
