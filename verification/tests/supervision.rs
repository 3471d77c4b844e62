use news_relay::supervision::{on_error, Disposition, FailureOrigin};

#[test]
fn a_failure_to_start_is_fatal() {
    assert_eq!(on_error(FailureOrigin::Setup), Disposition::Abort);
}

#[test]
fn a_failure_while_running_is_never_fatal() {
    assert_eq!(on_error(FailureOrigin::Command), Disposition::Log);
    assert_eq!(on_error(FailureOrigin::Tick), Disposition::Log);
    assert_eq!(on_error(FailureOrigin::Framework), Disposition::Delegate);
}
