//! Error taxonomy of the render-surface lifecycle.
//!
//! Setup-time failures are fatal to startup; per-tick failures are caught at
//! the tick boundary so one failed frame does not kill a long-running host.
//! A zero-sized frame request is not an error: the tick is skipped.

use vstd::prelude::*;

verus! {

/// Fatal failures while the rendering context is being set up.
#[derive(PartialEq, Eq, Structural, Clone, Copy, Debug)]
pub enum SetupError {
    /// No compatible graphics device was supplied by the host.
    DeviceAcquisitionFailure,
    /// The rasterization backend rejected the required configuration.
    RendererInitFailure,
}

/// Failures confined to a single tick: the frame is discarded wholesale and
/// no image is delivered, but the driver survives for the next tick.
#[derive(PartialEq, Eq, Structural, Clone, Copy, Debug)]
pub enum TickError {
    /// The rasterization backend errored on the current scene and surface.
    RenderFailure,
    /// The readback completion signal was never delivered: the copied buffer
    /// must not be interpreted.
    ReadbackAbort,
}

impl SetupError {
    /// A short description, suitable for a host's fatal-error report.
    pub fn message(&self) -> (m: &'static str)
        ensures
            m@ == self.spec_message(),
    {
        match self {
            SetupError::DeviceAcquisitionFailure => "no compatible graphics device",
            SetupError::RendererInitFailure => "renderer rejected the required configuration",
        }
    }

    /// The description `message` returns.
    pub open spec fn spec_message(self) -> Seq<char> {
        match self {
            SetupError::DeviceAcquisitionFailure => "no compatible graphics device"@,
            SetupError::RendererInitFailure => "renderer rejected the required configuration"@,
        }
    }
}

impl TickError {
    /// A short description, suitable for a per-tick log line.
    pub fn message(&self) -> (m: &'static str)
        ensures
            m@ == self.spec_message(),
    {
        match self {
            TickError::RenderFailure => "rendering the scene failed",
            TickError::ReadbackAbort => "readback aborted before completion",
        }
    }

    /// The description `message` returns.
    pub open spec fn spec_message(self) -> Seq<char> {
        match self {
            TickError::RenderFailure => "rendering the scene failed"@,
            TickError::ReadbackAbort => "readback aborted before completion"@,
        }
    }
}

} // verus!
