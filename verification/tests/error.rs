use audio_stream::error::Impact;
use audio_stream::error::StreamError;

#[test]
fn device_and_construction_failures_abort_startup() {
    assert_eq!(StreamError::DeviceUnavailable.impact(), Impact::AbortsStartup);
    assert_eq!(StreamError::StreamConstructionFailure.impact(), Impact::AbortsStartup);
    assert!(StreamError::DeviceUnavailable.is_fatal_at_startup());
    assert!(StreamError::StreamConstructionFailure.is_fatal_at_startup());
}

#[test]
fn runtime_error_halts_capture_only() {
    assert_eq!(StreamError::CaptureRuntimeError.impact(), Impact::HaltsCapture);
    assert!(!StreamError::CaptureRuntimeError.is_fatal_at_startup());
    assert!(!StreamError::CaptureRuntimeError.spares_capture());
}

#[test]
fn connection_error_closes_one_connection_only() {
    assert_eq!(StreamError::ConnectionError.impact(), Impact::ClosesConnection);
    assert!(!StreamError::ConnectionError.is_fatal_at_startup());
    assert!(StreamError::ConnectionError.spares_capture());
}

#[test]
fn startup_failures_do_not_spare_capture() {
    assert!(!StreamError::DeviceUnavailable.spares_capture());
    assert!(!StreamError::StreamConstructionFailure.spares_capture());
}
