use vstd::prelude::*;

verus! {

/// The error kinds that camera operations surface to their callers.
///
/// Every failure is reported synchronously to the immediate caller as one of
/// these kinds; transient per-frame capture glitches inside the steady-state
/// capture loop are the only failures that are retried instead of surfaced.
#[derive(Clone, Copy, Debug, PartialEq, Eq, Structural)]
pub enum CameraError {
    /// Internal synchronization failure (a poisoned lock).
    LockError,
    /// Native frame-buffer memory could not be obtained.
    AllocationError,
    /// The capture device could not be opened, configured or read.
    DeviceError,
    /// JPEG encoding of a captured frame failed.
    EncodingError,
    /// The output file could not be created, written or flushed.
    IoError,
    /// The camera device is already held by the other pipeline.
    InUseError,
}

impl CameraError {
    /// A short human-readable description of the error kind.
    pub fn describe(&self) -> &'static str {
        match self {
            CameraError::LockError => "failed to lock camera",
            CameraError::AllocationError => "failed to allocate native buffer",
            CameraError::DeviceError => "camera device failure",
            CameraError::EncodingError => "failed to encode JPEG",
            CameraError::IoError => "failed to write output file",
            CameraError::InUseError => "camera is currently in use",
        }
    }
}

} // verus!
