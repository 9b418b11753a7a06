use rusteze::memory_checker::check_severity;
use rusteze::native_types::error_severity::ErrorSeverity;
use rusteze::native_types::ErrorStruct;
use rusteze::time_expiration::expire_info::clamp_to_u64;

fn an_error() -> ErrorStruct {
    ErrorStruct::new("ERR".to_string(), "something".to_string())
}

#[test]
fn a_shutdown_error_stops_the_job() {
    let r = check_severity(Err((an_error(), Some(ErrorSeverity::ShutdownServer))));
    assert_eq!(r.unwrap_err().print_it(), "ERR something");
}

#[test]
fn other_replies_let_the_job_go_on() {
    assert!(check_severity(Ok(())).is_ok());
    assert!(check_severity(Err((an_error(), None))).is_ok());
    assert!(check_severity(Err((an_error(), Some(ErrorSeverity::Comunicate)))).is_ok());
    assert!(check_severity(Err((an_error(), Some(ErrorSeverity::CloseClient)))).is_ok());
}

#[test]
fn nanoseconds_past_a_u64_are_clamped() {
    assert_eq!(clamp_to_u64(5), 5);
    assert_eq!(clamp_to_u64(u64::MAX as u128), u64::MAX);
    assert_eq!(clamp_to_u64(u64::MAX as u128 + 1), u64::MAX);
}
