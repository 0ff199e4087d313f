use apollo_composition::satellite::{after_wait, SatelliteError, Waited};
use std::io::{Error, ErrorKind};

#[test]
fn a_child_that_ends_with_success_is_read() {
    assert_eq!(after_wait(Waited::Exited { success: true }), Ok(()));
}

#[test]
fn a_child_that_ends_without_success_has_failed() {
    assert_eq!(after_wait(Waited::Exited { success: false }), Err(SatelliteError::LaunchFailed));
}

#[test]
fn a_child_that_runs_too_long_has_timed_out() {
    assert_eq!(after_wait(Waited::TimedOut), Err(SatelliteError::LaunchTimeOut));
}

#[test]
fn a_wait_that_fails_is_a_failure_of_input_and_output() {
    let verdict = after_wait(Waited::Failed(Error::new(ErrorKind::NotFound, "nodey")));
    match verdict {
        Err(SatelliteError::IoFailed(error)) => assert_eq!(error.kind(), ErrorKind::NotFound),
        other => panic!("expected a failure of input and output, got {other:?}"),
    }
}

#[test]
fn errors_are_equal_if_they_are_of_one_kind() {
    let not_found = SatelliteError::from(Error::new(ErrorKind::NotFound, "a"));
    let denied = SatelliteError::from(Error::new(ErrorKind::PermissionDenied, "b"));
    assert_eq!(not_found, denied);
    assert_eq!(SatelliteError::LaunchTimeOut, SatelliteError::LaunchTimeOut);
    assert_eq!(SatelliteError::LaunchFailed, SatelliteError::LaunchFailed);
    assert_ne!(SatelliteError::LaunchTimeOut, SatelliteError::LaunchFailed);
    assert_ne!(SatelliteError::LaunchFailed, not_found);
    assert_ne!(denied, SatelliteError::LaunchTimeOut);
}

#[test]
fn every_error_has_its_summary() {
    assert_eq!(SatelliteError::LaunchTimeOut.summary(), "launch timed out");
    assert_eq!(SatelliteError::LaunchFailed.summary(), "launch failed");
    assert_eq!(SatelliteError::from(Error::new(ErrorKind::Other, "x")).summary(), "IO error");
}
