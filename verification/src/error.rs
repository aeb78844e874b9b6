//! The error taxonomy of the submission layer.
//!
//! Every construction, allocation, recording and submission call surfaces a
//! failure immediately to its caller; nothing retries silently.

use vstd::prelude::*;

verus! {

/// Everything that can go wrong between probing the host and reading a
/// result back.
#[derive(Clone, Copy, Debug, PartialEq, Eq, Structural)]
pub enum GpuError {
    /// No compatible driver or runtime is present on the host.
    NoBackend,
    /// The instance enumerated no physical device.
    NoDevice,
    /// No queue family reports the requested capability.
    NoCapableQueue,
    /// The driver rejected the logical-device creation request.
    DeviceCreationFailed,
    /// No memory type satisfies the requested usage and access pattern, or
    /// the device is out of memory.
    AllocationFailed,
    /// A recorder call that its state machine does not allow here.
    InvalidState,
    /// An operation was appended whose required binding is missing or whose
    /// bound resources do not fit it.
    InvalidBinding,
    /// The shader interface or fixed-function state was rejected.
    PipelineCreationFailed,
    /// The queue rejected a submitted command unit.
    SubmissionFailed,
    /// A wait elapsed before the device signalled completion. Recoverable:
    /// the caller may wait again, but the resources stay unsafe to read
    /// until a wait succeeds. The modelled device completes every
    /// submission synchronously, so only a wait against a real device can
    /// report it.
    Timeout,
    /// The device was lost; terminal for the current context.
    DeviceLost,
}

impl GpuError {
    /// A short description, in place of a `Display` impl.
    pub fn message(&self) -> (r: &'static str) {
        match self {
            GpuError::NoBackend => "no compatible driver or runtime on this host",
            GpuError::NoDevice => "no physical device was enumerated",
            GpuError::NoCapableQueue => "no queue family reports the requested capability",
            GpuError::DeviceCreationFailed => "the driver rejected the device creation request",
            GpuError::AllocationFailed => "no memory satisfies the request, or none is left",
            GpuError::InvalidState => "the recorder does not allow this call in its state",
            GpuError::InvalidBinding => "a required binding is missing or does not fit",
            GpuError::PipelineCreationFailed => "the pipeline description was rejected",
            GpuError::SubmissionFailed => "the queue rejected the command unit",
            GpuError::Timeout => "the wait elapsed before completion",
            GpuError::DeviceLost => "the device was lost",
        }
    }
}

} // verus!
