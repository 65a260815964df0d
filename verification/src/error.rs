//! The error type of the rendering interface.

use vstd::prelude::*;

verus! {

/// Why a backend or scheduler operation failed.  Stale-handle lookups and
/// surface-lifecycle conditions are *not* errors: the first is an expected
/// `HandleNotFound` outcome, the second is handled by swapchain recreation.
#[derive(Debug, Clone, Copy, PartialEq, Eq, Structural)]
pub enum RenderError {
    /// A handle did not resolve: it is stale, out of range, or of the wrong
    /// generation.
    HandleNotFound,
    /// No queue of the requested type exists on the device.
    QueueNotFound,
    /// None of the candidate formats supports the requested feature.
    NoSupportedFormat,
    /// The driver reported an image index beyond the swapchain's images.
    ImageIndexOutOfRange,
    /// The requested image layout transition is not among the supported
    /// ones.
    UnsupportedLayoutTransition,
    /// The slot index space of a resource pool is spent: a fatal
    /// configuration error.
    PoolExhausted,
    /// A native driver call failed with the given code.
    Driver(u32),
}

impl RenderError {
    /// A short description of the error.
    pub fn message(&self) -> String {
        match self {
            RenderError::HandleNotFound => "handle not found".to_owned(),
            RenderError::QueueNotFound => "queue not found".to_owned(),
            RenderError::NoSupportedFormat => "no supported format among candidates".to_owned(),
            RenderError::ImageIndexOutOfRange => "acquired image index out of range".to_owned(),
            RenderError::UnsupportedLayoutTransition => "unsupported image layout transition".to_owned(),
            RenderError::PoolExhausted => "resource pool exhausted".to_owned(),
            RenderError::Driver(_) => "driver call failed".to_owned(),
        }
    }
}

} // verus!
