//! The per-tick frame driver.
//!
//! Bound to the host's rendering callback, the driver runs the tick protocol:
//! query the requested size and skip the whole tick while either dimension is
//! still 0; resize the surface set before anything else touches it; clear and
//! rebuild the scene for exactly that size; pick the render target; update
//! the frame-rate counter. The host performs the GPU work the outcome asks
//! for — rasterize into the target, hand the image off, schedule the next
//! tick — and confirms the hand-off back to the driver.

use vstd::prelude::*;

use crate::counter::{spec_record_counter, spec_record_emit, FrameCounter};
use crate::device::DeviceHandle;
use crate::readback::spec_padded_stride;
use crate::scene::SceneDescription;
use crate::surface_set::SurfaceSet;

verus! {

/// The host-reported size for the current tick. Either dimension may be 0,
/// meaning the host has not laid the item out yet.
#[derive(Clone, Copy, PartialEq, Eq, Structural, Debug)]
pub struct FrameRequest {
    /// Requested width in pixels.
    pub width: u32,
    /// Requested height in pixels.
    pub height: u32,
}

/// What the host must do after a tick.
#[derive(Clone, Copy, PartialEq, Eq, Structural, Debug)]
pub enum TickAction {
    /// A dimension was 0: no resize, no render, no image update; the
    /// previously displayed image stays.
    Skip,
    /// Rasterize the scene into the texture `target` and hand that texture to
    /// the host directly, then schedule another tick.
    RenderDirect {
        /// The texture receiving this frame.
        target: u64,
    },
    /// Rasterize into `target`, copy it out through the readback pipeline
    /// with the given row pitch, hand the tight pixels to the host, then
    /// schedule another tick.
    RenderReadback {
        /// The texture receiving this frame.
        target: u64,
        /// Row pitch of the texture-to-buffer copy, in bytes.
        padded_stride: u64,
    },
}

/// Outcome of one tick: the action the host performs, and the frame rate
/// emitted if this tick closed a one-second window.
#[derive(Clone, Copy, PartialEq, Eq, Debug)]
pub struct TickOutcome {
    /// What the host must do with this frame.
    pub action: TickAction,
    /// The frames counted in the second that just ended, if one did.
    pub frame_rate: Option<u32>,
}

/// The per-tick state owned by the rendering subsystem: created at Setup,
/// destroyed at Teardown, handed explicitly to every call in between.
pub struct FrameDriver {
    /// The surface or surface pair receiving frames.
    pub surfaces: SurfaceSet,
    /// The scene of the current tick.
    pub scene: SceneDescription,
    /// The frame-rate counter.
    pub counter: FrameCounter,
    /// The texture whose output the host displays, once one was handed off.
    pub displayed: Option<u64>,
}

/// How one tick relates the driver and device before it to the driver,
/// device and outcome after it.
pub open spec fn tick_rel(
    pre: FrameDriver,
    dev_pre: DeviceHandle,
    request: FrameRequest,
    now_millis: u64,
    post: FrameDriver,
    dev_post: DeviceHandle,
    out: TickOutcome,
) -> bool {
    &&& ((request.width == 0 || request.height == 0) <==> out.action is Skip)
    &&& (out.action is Skip ==> {
        &&& post == pre
        &&& dev_post == dev_pre
        &&& out.frame_rate is None
    })
    &&& (!(out.action is Skip) ==> {
        &&& post.surfaces.spec_width() == request.width
        &&& post.surfaces.spec_height() == request.height
        &&& post.scene.built_for(request.width, request.height)
        &&& post.surfaces.double_buffered() == pre.surfaces.double_buffered()
        &&& (out.action is RenderDirect <==> pre.surfaces.double_buffered())
        &&& post.counter == spec_record_counter(pre.counter, now_millis)
        &&& out.frame_rate == spec_record_emit(pre.counter, now_millis)
        &&& post.displayed == pre.displayed
        &&& (pre.surfaces.spec_width() == request.width && pre.surfaces.spec_height()
            == request.height ==> forall|id: u64|
            post.surfaces.owns(id) == pre.surfaces.owns(id))
        &&& (pre.surfaces.spec_width() != request.width || pre.surfaces.spec_height()
            != request.height ==> forall|id: u64| pre.surfaces.owns(id) ==> !post.surfaces.owns(id))
    })
    &&& (out.action matches TickAction::RenderDirect { target } ==> {
        &&& post.surfaces.owns(target)
        &&& target == post.surfaces.current_texture()
        &&& target != pre.surfaces.current_texture()
        &&& post.surfaces.spec_index() == 1 - pre.surfaces.spec_index()
    })
    &&& (out.action matches TickAction::RenderReadback { target, padded_stride } ==> {
        &&& post.surfaces.owns(target)
        &&& target == post.surfaces.current_texture()
        &&& padded_stride == spec_padded_stride(request.width)
    })
}

impl FrameDriver {
    /// The driver's surfaces are well-formed.
    pub open spec fn wf(self) -> bool {
        self.surfaces.wf()
    }

    /// Every texture of the driver was allocated by the given device.
    pub open spec fn valid_for(self, device: DeviceHandle) -> bool {
        self.surfaces.valid_for(device)
    }

    /// Construct the driver at Setup, at the minimal (1, 1) fallback size:
    /// the host has usually not laid anything out yet, and a surface is never
    /// created with a zero dimension.
    pub fn new(device: &mut DeviceHandle, direct_handoff: bool, now_millis: u64) -> (d:
        FrameDriver)
        requires
            old(device).next_texture_id <= u64::MAX - 2,
        ensures
            d.wf(),
            d.valid_for(*final(device)),
            d.surfaces.spec_width() == 1,
            d.surfaces.spec_height() == 1,
            d.surfaces.spec_index() == 0,
            d.surfaces.double_buffered() == direct_handoff,
            !d.scene.populated,
            d.counter.frames == 0,
            d.counter.window_start == now_millis,
            d.displayed is None,
            old(device).next_texture_id <= final(device).next_texture_id <= old(
                device,
            ).next_texture_id + 2,
    {
        FrameDriver {
            surfaces: SurfaceSet::create(device, 1, 1, direct_handoff),
            scene: SceneDescription::new(),
            counter: FrameCounter::new(now_millis),
            displayed: None,
        }
    }

    /// Run one tick: skip it wholesale while a requested dimension is 0;
    /// otherwise resize the surfaces first, rebuild the scene for exactly the
    /// requested size, flip to the render target, and update the frame-rate
    /// counter. The hand-off to the host is confirmed separately through
    /// `mark_displayed`, after the GPU work the outcome asks for succeeded.
    pub fn tick(&mut self, device: &mut DeviceHandle, request: FrameRequest, now_millis: u64) -> (
        out: TickOutcome)
        requires
            old(self).wf(),
            old(self).valid_for(*old(device)),
            old(self).counter.frames < u32::MAX,
            old(self).counter.window_start <= now_millis,
            old(device).next_texture_id <= u64::MAX - 2,
        ensures
            final(self).wf(),
            final(self).valid_for(*final(device)),
            final(self).counter.window_start <= now_millis,
            old(device).next_texture_id <= final(device).next_texture_id <= old(
                device,
            ).next_texture_id + 2,
            tick_rel(
                *old(self),
                *old(device),
                request,
                now_millis,
                *final(self),
                *final(device),
                out,
            ),
    {
        if request.width == 0 || request.height == 0 {
            return TickOutcome { action: TickAction::Skip, frame_rate: None };
        }
        let ghost pre = *self;
        self.surfaces.resize(device, request.width, request.height);
        self.scene.rebuild(request.width, request.height);
        let ghost resized = self.surfaces;
        let target: u64 = self.surfaces.render(&self.scene);
        proof {
            reveal_with_fuel(crate::surface_set::index_after_renders, 2);
            if pre.surfaces.spec_width() != request.width || pre.surfaces.spec_height()
                != request.height {
                assert(!resized.owns(pre.surfaces.current_texture()));
                assert(!self.surfaces.owns(pre.surfaces.current_texture()));
            }
        }
        let frame_rate = self.counter.record_frame(now_millis);
        let action = match &self.surfaces {
            SurfaceSet::Double { .. } => TickAction::RenderDirect { target },
            SurfaceSet::Single { readback, .. } => TickAction::RenderReadback {
                target,
                padded_stride: readback.padded_stride,
            },
        };
        TickOutcome { action, frame_rate }
    }

    /// Confirm the hand-off: the host now displays the output of `target`,
    /// the texture rendered most recently. In single-buffer mode the handle's
    /// validity does not survive past the next render call; the host got the
    /// copied pixels, and `target` records which texture they came from.
    pub fn mark_displayed(&mut self, target: u64)
        requires
            target == old(self).surfaces.current_texture(),
        ensures
            final(self).displayed == Some(target),
            final(self).surfaces == old(self).surfaces,
            final(self).scene == old(self).scene,
            final(self).counter == old(self).counter,
    {
        self.displayed = Some(target);
    }
}

} // verus!
