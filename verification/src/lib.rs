//! Core of a render-to-texture underlay embedded in a host GUI's per-frame
//! rendering callback: surface allocation and resize, double-buffer
//! alternation, the CPU readback fallback, and the per-tick scheduling state
//! machine that ties them to the host's lifecycle.

pub mod counter;
pub mod device;
pub mod driver;
pub mod errors;
pub mod lifecycle;
pub mod readback;
pub mod scene;
pub mod surface;
pub mod surface_set;
