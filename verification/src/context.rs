//! Process-scoped camera state: the shared RGB frame buffer, the
//! capture-loop running flag, and the lease/release lifecycle around them.
//!
//! The context only decides; the caller performs the outside work (opening
//! the device, spawning and joining the worker) and reports the outcome
//! back. At most one of the streaming path and the recording path may hold
//! the device, which the running flag enforces.

use crate::convert::rgb_overlay;
use crate::errors::CameraError;
use vstd::prelude::*;

verus! {

/// Backoff after a transient capture error inside the steady-state loop, in
/// milliseconds: such errors are retried, never propagated.
pub const ERROR_BACKOFF_MILLIS: u64 = 10;

/// Brief yield between capture iterations, in milliseconds, so the worker
/// does not monopolize a CPU.
pub const LOOP_YIELD_MILLIS: u64 = 1;

/// Grace period a stop request waits for the worker to observe the cleared
/// running flag, in milliseconds; stopping is best-effort, not a guaranteed
/// join.
pub const STOP_GRACE_MILLIS: u64 = 100;

/// What the lease layer must do after asking for a stream handle.
#[derive(Clone, Copy, Debug, PartialEq, Eq, Structural)]
pub enum AcquireAction {
    /// A buffer already exists: hand out a view of it and start nothing.
    UseExisting,
    /// A buffer was just allocated: the capture loop must now be started.
    StartCapture,
}

/// What came of attempting to start the capture device, reported back by
/// the caller that performed the attempt.
#[derive(Clone, Copy, Debug, PartialEq, Eq, Structural)]
pub enum StartOutcome {
    /// The device was opened and configured and the worker is running.
    Started,
    /// Opening, configuring or streaming from the device failed.
    DeviceFailed,
}

/// The process-wide camera context: the shared frame buffer together with
/// the capture-loop running flag.
pub struct CameraContext {
    /// The shared RGB frame buffer; `None` while nothing is leased.
    pub buffer: Option<Vec<u8>>,
    /// True exactly while a background capture worker is pulling frames.
    pub running: bool,
}

/// The contents of an all-zero frame buffer, the state a fresh allocation
/// starts in.
pub open spec fn zero_frame() -> Seq<u8> {
    Seq::new(crate::BUFFER_SIZE as nat, |m: int| 0u8)
}

/// A state with nothing allocated and nothing running: what `release`
/// leaves behind, and what a device failure during acquisition must fall
/// back to.
pub open spec fn released(c: CameraContext) -> bool {
    &&& c.buffer is None
    &&& !c.running
}

/// Whether starting a recording session is allowed: the recorder may hold
/// the device exactly while no capture loop does.
pub open spec fn record_allowed(c: CameraContext) -> bool {
    !c.running
}

impl CameraContext {
    /// Whether the shared frame buffer currently exists.
    pub open spec fn allocated(&self) -> bool {
        self.buffer is Some
    }

    /// Whether a background capture worker is active.
    pub open spec fn is_running(&self) -> bool {
        self.running
    }

    /// The contents of the shared frame buffer.
    pub open spec fn frame(&self) -> Seq<u8> {
        self.buffer.unwrap()@
    }

    /// Well-formedness: an allocated buffer always has the fixed frame
    /// size, and a capture worker only ever runs over an allocated buffer.
    pub open spec fn wf(&self) -> bool {
        &&& self.allocated() ==> self.frame().len() == crate::BUFFER_SIZE
        &&& self.is_running() ==> self.allocated()
    }

    /// A fresh context: nothing allocated, nothing running.
    pub fn new() -> (r: CameraContext)
        ensures
            r.wf(),
            released(r),
    {
        CameraContext { buffer: None, running: false }
    }

    /// First half of a lease request. When a buffer already exists it is
    /// reused untouched — two requests in a row without a release see the
    /// same allocation. Otherwise a zero-filled buffer of the fixed frame
    /// size is allocated lazily and the caller is told to start the capture
    /// loop.
    pub fn prepare_acquire(&mut self) -> (r: AcquireAction)
        requires
            old(self).wf(),
        ensures
            final(self).wf(),
            final(self).is_running() == old(self).is_running(),
            old(self).allocated() ==> *final(self) == *old(self) && r == AcquireAction::UseExisting,
            !old(self).allocated() ==> {
                &&& r == AcquireAction::StartCapture
                &&& final(self).allocated()
                &&& final(self).frame() == zero_frame()
                &&& !final(self).is_running()
            },
    {
        if self.buffer.is_some() {
            AcquireAction::UseExisting
        } else {
            let frame = crate::convert::alloc_frame(crate::BUFFER_SIZE);
            self.buffer = Some(frame);
            AcquireAction::StartCapture
        }
    }

    /// Second half of a lease request, run after `prepare_acquire` asked
    /// for a capture start: commits the reported outcome. A device failure
    /// releases the buffer that was just allocated before the error is
    /// returned, so no allocation and no running state is left behind.
    pub fn finish_acquire(&mut self, outcome: StartOutcome) -> (r: Result<(), CameraError>)
        requires
            old(self).wf(),
            old(self).allocated(),
            !old(self).is_running(),
        ensures
            final(self).wf(),
            outcome == StartOutcome::Started ==> {
                &&& r is Ok
                &&& final(self).is_running()
                &&& final(self).buffer == old(self).buffer
            },
            outcome == StartOutcome::DeviceFailed ==> {
                &&& r is Err
                &&& r->Err_0 == CameraError::DeviceError
                &&& released(*final(self))
            },
    {
        match outcome {
            StartOutcome::Started => {
                self.running = true;
                Ok(())
            },
            StartOutcome::DeviceFailed => {
                self.buffer = None;
                self.running = false;
                Err(CameraError::DeviceError)
            },
        }
    }

    /// Releases the camera: asks the capture loop to stop if one runs and
    /// frees the buffer. Idempotent — on a context with nothing allocated
    /// and nothing running it changes nothing and reports nothing to stop.
    /// Returns whether a worker was running, so the caller knows to wait
    /// the stop grace period.
    pub fn release(&mut self) -> (stopped: bool)
        requires
            old(self).wf(),
        ensures
            final(self).wf(),
            released(*final(self)),
            stopped == old(self).is_running(),
            released(*old(self)) ==> *final(self) == *old(self),
    {
        let was_running = self.running;
        self.running = false;
        self.buffer = None;
        was_running
    }

    /// One steady-state capture-worker step: converts a raw YUYV frame into
    /// the shared buffer in place. When nothing is allocated (the buffer
    /// was released under the worker) the frame is dropped and nothing
    /// changes.
    pub fn store_frame(&mut self, yuyv: &[u8])
        requires
            old(self).wf(),
        ensures
            final(self).wf(),
            final(self).is_running() == old(self).is_running(),
            final(self).allocated() == old(self).allocated(),
            old(self).allocated() ==> final(self).frame() == rgb_overlay(yuyv@, old(self).frame()),
            !old(self).allocated() ==> *final(self) == *old(self),
    {
        match &mut self.buffer {
            Some(frame) => {
                crate::convert::yuyv422_to_rgb24(yuyv, frame);
            },
            None => {},
        }
    }

    /// Gate for the recording path: recording is allowed exactly while no
    /// capture loop runs; otherwise the caller gets `InUseError` and must
    /// not touch the device.
    pub fn check_record_allowed(&self) -> (r: Result<(), CameraError>)
        ensures
            r is Ok <==> record_allowed(*self),
            r is Err ==> r->Err_0 == CameraError::InUseError,
    {
        if self.running {
            Err(CameraError::InUseError)
        } else {
            Ok(())
        }
    }
}

/// Mutual exclusion, release direction: any state that a release leaves
/// behind admits a subsequent recording.
pub proof fn lemma_release_enables_record(c: CameraContext)
    requires
        released(c),
    ensures
        record_allowed(c),
{
}

} // verus!
