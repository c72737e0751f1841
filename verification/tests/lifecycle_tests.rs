use swiftbot_camera::context::{AcquireAction, CameraContext, StartOutcome};
use swiftbot_camera::errors::CameraError;
use swiftbot_camera::BUFFER_SIZE;

#[test]
fn first_acquire_allocates_zeroed_buffer_and_asks_for_start() {
    let mut ctx = CameraContext::new();
    assert!(ctx.buffer.is_none());
    assert!(!ctx.running);

    let action = ctx.prepare_acquire();
    assert_eq!(action, AcquireAction::StartCapture);
    let buf = ctx.buffer.as_ref().expect("buffer must be allocated");
    assert_eq!(buf.len(), BUFFER_SIZE);
    assert!(buf.iter().all(|&b| b == 0));
    assert!(!ctx.running);
}

#[test]
fn second_acquire_reuses_the_same_allocation() {
    let mut ctx = CameraContext::new();
    assert_eq!(ctx.prepare_acquire(), AcquireAction::StartCapture);
    assert_eq!(ctx.finish_acquire(StartOutcome::Started), Ok(()));

    // Mark the allocation so reuse is observable.
    ctx.buffer.as_mut().unwrap()[0] = 42;

    let action = ctx.prepare_acquire();
    assert_eq!(action, AcquireAction::UseExisting);
    let buf = ctx.buffer.as_ref().unwrap();
    assert_eq!(buf.len(), BUFFER_SIZE);
    assert_eq!(buf[0], 42);
    assert!(ctx.running);
}

#[test]
fn device_failure_releases_the_fresh_allocation() {
    let mut ctx = CameraContext::new();
    assert_eq!(ctx.prepare_acquire(), AcquireAction::StartCapture);
    let r = ctx.finish_acquire(StartOutcome::DeviceFailed);
    assert_eq!(r, Err(CameraError::DeviceError));
    assert!(ctx.buffer.is_none());
    assert!(!ctx.running);
}

#[test]
fn release_is_idempotent() {
    let mut ctx = CameraContext::new();
    assert_eq!(ctx.prepare_acquire(), AcquireAction::StartCapture);
    assert_eq!(ctx.finish_acquire(StartOutcome::Started), Ok(()));

    let stopped = ctx.release();
    assert!(stopped);
    assert!(ctx.buffer.is_none());
    assert!(!ctx.running);

    // The second release is a no-op and does not error.
    let stopped_again = ctx.release();
    assert!(!stopped_again);
    assert!(ctx.buffer.is_none());
    assert!(!ctx.running);
}

#[test]
fn release_on_fresh_context_is_a_no_op() {
    let mut ctx = CameraContext::new();
    assert!(!ctx.release());
    assert!(ctx.buffer.is_none());
    assert!(!ctx.running);
}

#[test]
fn record_is_refused_while_capture_loop_runs() {
    let mut ctx = CameraContext::new();
    assert_eq!(ctx.prepare_acquire(), AcquireAction::StartCapture);
    assert_eq!(ctx.finish_acquire(StartOutcome::Started), Ok(()));
    assert_eq!(ctx.check_record_allowed(), Err(CameraError::InUseError));
}

#[test]
fn record_is_allowed_again_after_release() {
    let mut ctx = CameraContext::new();
    assert_eq!(ctx.prepare_acquire(), AcquireAction::StartCapture);
    assert_eq!(ctx.finish_acquire(StartOutcome::Started), Ok(()));
    assert_eq!(ctx.check_record_allowed(), Err(CameraError::InUseError));

    ctx.release();
    assert_eq!(ctx.check_record_allowed(), Ok(()));
}

#[test]
fn store_frame_converts_into_the_shared_buffer() {
    let mut ctx = CameraContext::new();
    assert_eq!(ctx.prepare_acquire(), AcquireAction::StartCapture);
    assert_eq!(ctx.finish_acquire(StartOutcome::Started), Ok(()));

    // One mid-gray pair: the first six buffer bytes become 130, the rest
    // keep their zero fill.
    ctx.store_frame(&[128u8, 128, 128, 128]);
    let buf = ctx.buffer.as_ref().unwrap();
    assert_eq!(&buf[0..6], &[130u8, 130, 130, 130, 130, 130]);
    assert!(buf[6..].iter().all(|&b| b == 0));
    assert!(ctx.running);
}

#[test]
fn store_frame_without_buffer_changes_nothing() {
    let mut ctx = CameraContext::new();
    ctx.store_frame(&[128u8, 128, 128, 128]);
    assert!(ctx.buffer.is_none());
    assert!(!ctx.running);
}

#[test]
fn error_kinds_have_distinct_descriptions() {
    let kinds = [
        CameraError::LockError,
        CameraError::AllocationError,
        CameraError::DeviceError,
        CameraError::EncodingError,
        CameraError::IoError,
        CameraError::InUseError,
    ];
    for (i, a) in kinds.iter().enumerate() {
        assert!(!a.describe().is_empty());
        for b in kinds.iter().skip(i + 1) {
            assert_ne!(a.describe(), b.describe());
        }
    }
    assert_eq!(CameraError::InUseError.describe(), "camera is currently in use");
}
