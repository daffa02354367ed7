//! The lifecycle dispatcher.
//!
//! The host invokes one callback with a phase tag, guaranteed never
//! concurrent with itself. Setup captures the device and constructs the
//! driver at the minimal size; BeforeRender runs one tick; Teardown releases
//! everything and is safe even if Setup never completed; any other phase is
//! ignored.

use vstd::prelude::*;

use crate::device::DeviceHandle;
use crate::driver::{tick_rel, FrameDriver, FrameRequest, TickOutcome};
use crate::errors::SetupError;

verus! {

/// The phases of the host's rendering-lifecycle notification.
#[derive(Clone, Copy, PartialEq, Eq, Structural, Debug)]
pub enum LifecyclePhase {
    /// The rendering context exists; the device handle is now available.
    Setup,
    /// One tick: a frame is about to be composed.
    BeforeRender,
    /// The rendering context is going away.
    Teardown,
    /// Any other notification; ignored.
    Other,
}

/// What one lifecycle invocation asks of the host.
#[derive(Clone, Copy, PartialEq, Eq, Debug)]
pub enum PhaseOutcome {
    /// Nothing to do.
    Idle,
    /// One tick ran; the host performs its outcome.
    Ticked(TickOutcome),
}

/// The rendering subsystem as the host sees it across its whole lifetime:
/// a driver while the context is up, nothing outside of it.
pub struct LifecycleManager {
    /// Whether the host can import GPU textures directly; otherwise every
    /// frame goes through the readback fallback.
    pub direct_handoff: bool,
    /// The per-tick state, alive between Setup and Teardown.
    pub driver: Option<FrameDriver>,
}

impl LifecycleManager {
    /// The driver, when present, is well-formed.
    pub open spec fn wf(self) -> bool {
        self.driver matches Some(d) ==> d.wf()
    }

    /// The driver's textures, when present, come from the given device.
    pub open spec fn valid_for(self, device: DeviceHandle) -> bool {
        self.driver matches Some(d) ==> d.valid_for(device)
    }

    /// Before Setup: no driver exists yet.
    pub fn new(direct_handoff: bool) -> (m: LifecycleManager)
        ensures
            m.direct_handoff == direct_handoff,
            m.driver is None,
    {
        LifecycleManager { direct_handoff, driver: None }
    }

    /// Dispatch one lifecycle notification.
    ///
    /// Setup: when the backend initialized, construct the driver at the
    /// minimal (1, 1) size; when it did not, that is a fatal
    /// `RendererInitFailure` and no driver exists. BeforeRender: run one tick
    /// of the driver, or nothing when Setup has not happened. Teardown:
    /// release the driver; safe even if Setup never completed. Other phases
    /// change nothing.
    pub fn handle(
        &mut self,
        device: &mut DeviceHandle,
        phase: LifecyclePhase,
        renderer_init_ok: bool,
        request: FrameRequest,
        now_millis: u64,
    ) -> (out: Result<PhaseOutcome, SetupError>)
        requires
            old(self).wf(),
            old(self).valid_for(*old(device)),
            old(device).next_texture_id <= u64::MAX - 2,
            old(self).driver matches Some(d) ==> {
                &&& d.counter.frames < u32::MAX
                &&& d.counter.window_start <= now_millis
            },
        ensures
            final(self).wf(),
            final(self).valid_for(*final(device)),
            final(self).direct_handoff == old(self).direct_handoff,
            phase == LifecyclePhase::Setup && renderer_init_ok ==> {
                &&& out == Result::<PhaseOutcome, SetupError>::Ok(PhaseOutcome::Idle)
                &&& final(self).driver matches Some(d)
                &&& d.surfaces.spec_width() == 1
                &&& d.surfaces.spec_height() == 1
                &&& d.surfaces.spec_index() == 0
                &&& d.surfaces.double_buffered() == old(self).direct_handoff
                &&& d.counter.frames == 0
                &&& d.counter.window_start == now_millis
                &&& d.displayed is None
            },
            phase == LifecyclePhase::Setup && !renderer_init_ok ==> {
                &&& out == Result::<PhaseOutcome, SetupError>::Err(
                    SetupError::RendererInitFailure,
                )
                &&& final(self).driver is None
                &&& *final(device) == *old(device)
            },
            phase == LifecyclePhase::BeforeRender ==> match old(self).driver {
                Some(d) => {
                    &&& final(self).driver matches Some(d2) && out matches Ok(
                        PhaseOutcome::Ticked(o),
                    ) && tick_rel(
                        d,
                        *old(device),
                        request,
                        now_millis,
                        d2,
                        *final(device),
                        o,
                    )
                },
                None => {
                    &&& *final(self) == *old(self)
                    &&& *final(device) == *old(device)
                    &&& out == Result::<PhaseOutcome, SetupError>::Ok(PhaseOutcome::Idle)
                },
            },
            phase == LifecyclePhase::Teardown ==> {
                &&& final(self).driver is None
                &&& *final(device) == *old(device)
                &&& out == Result::<PhaseOutcome, SetupError>::Ok(PhaseOutcome::Idle)
            },
            phase == LifecyclePhase::Other ==> {
                &&& *final(self) == *old(self)
                &&& *final(device) == *old(device)
                &&& out == Result::<PhaseOutcome, SetupError>::Ok(PhaseOutcome::Idle)
            },
    {
        match phase {
            LifecyclePhase::Setup => {
                if renderer_init_ok {
                    let driver = FrameDriver::new(device, self.direct_handoff, now_millis);
                    self.driver = Some(driver);
                    Ok(PhaseOutcome::Idle)
                } else {
                    self.driver = None;
                    Err(SetupError::RendererInitFailure)
                }
            },
            LifecyclePhase::BeforeRender => {
                match &mut self.driver {
                    Some(driver) => {
                        let outcome = driver.tick(device, request, now_millis);
                        Ok(PhaseOutcome::Ticked(outcome))
                    },
                    None => Ok(PhaseOutcome::Idle),
                }
            },
            LifecyclePhase::Teardown => {
                self.driver = None;
                Ok(PhaseOutcome::Idle)
            },
            LifecyclePhase::Other => Ok(PhaseOutcome::Idle),
        }
    }
}

} // verus!
