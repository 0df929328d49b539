use proc_handle::access::{
    AccessResult, AcquireRequest, ErrorKind, OsRequestFailure, ProcessHandle, parse_process_id
};
use proc_handle::render::{
    failure_display, handle_display, outcome_line, pid_line, radix_text, signed_decimal_text,
    zero_padded_text,
};

fn failure(code: u32, message: &str) -> OsRequestFailure {
    OsRequestFailure { code: code as i32, message: message.to_string() }
}

#[test]
fn request_does_not_inherit() {
    let r = AcquireRequest::new(7684, 0x001F_FFFF);
    assert_eq!(r.target_id, 7684);
    assert_eq!(r.access_mask, 0x001F_FFFF);
    assert!(!r.inherit_handle);
}

#[test]
fn handle_from_raw_rejects_null_and_invalid() {
    assert!(ProcessHandle::from_raw(0).is_none());
    assert!(ProcessHandle::from_raw(-1).is_none());
    assert_eq!(ProcessHandle::from_raw(188).unwrap().raw(), 188);
    assert_eq!(ProcessHandle::from_raw(-2).unwrap().raw(), -2);
}

#[test]
fn running_process_gives_success_with_handle() {
    let r = AccessResult::from_os(Ok(188));
    match &r {
        AccessResult::Success(h) => assert_eq!(h.raw(), 188),
        AccessResult::Failure(_) => panic!("expected a handle"),
    }
    assert_eq!(r.error_kind(), None);
}

#[test]
fn missing_process_gives_not_found() {
    let r = AccessResult::from_os(Err(failure(0x8007_0057, "The parameter is incorrect.")));
    assert_eq!(r.error_kind(), Some(ErrorKind::NotFound));
}

#[test]
fn foreign_process_gives_access_denied() {
    let r = AccessResult::from_os(Err(failure(0x8007_0005, "Access is denied.")));
    assert_eq!(r.error_kind(), Some(ErrorKind::AccessDenied));
}

#[test]
fn other_failures_are_other() {
    let f = failure(0x8000_4005, "Unspecified error");
    assert_eq!(f.win32_code(), None);
    assert_eq!(f.kind(), ErrorKind::Other);
    let g = failure(0x8007_0008, "Not enough memory resources are available.");
    assert_eq!(g.win32_code(), Some(8));
    assert_eq!(g.kind(), ErrorKind::Other);
    assert_eq!(failure(0, "").kind(), ErrorKind::Other);
}

#[test]
fn null_handle_is_reported_as_invalid_handle() {
    for raw in [0isize, -1] {
        match AccessResult::from_os(Ok(raw)) {
            AccessResult::Failure(f) => {
                assert_eq!(f.code as u32, 0x8007_0006);
                assert_eq!(f.win32_code(), Some(6));
                assert_eq!(f.message, "The handle is invalid.");
            }
            AccessResult::Success(_) => panic!("a null handle is no success"),
        }
    }
}

#[test]
fn failure_keeps_code_and_message() {
    match AccessResult::from_os(Err(failure(0x8007_0057, "The parameter is incorrect."))) {
        AccessResult::Failure(f) => {
            assert_eq!(f.code as u32, 0x8007_0057);
            assert_eq!(f.message, "The parameter is incorrect.");
        }
        AccessResult::Success(_) => panic!("expected a failure"),
    }
}

#[test]
fn parse_process_id_accepts_decimal() {
    assert_eq!(parse_process_id("7684"), Some(7684));
    assert_eq!(parse_process_id("0"), Some(0));
    assert_eq!(parse_process_id("007"), Some(7));
    assert_eq!(parse_process_id("4294967295"), Some(u32::MAX));
}

#[test]
fn parse_process_id_rejects_other_text() {
    assert_eq!(parse_process_id(""), None);
    assert_eq!(parse_process_id("4294967296"), None);
    assert_eq!(parse_process_id("99999999999x"), None);
    assert_eq!(parse_process_id("-1"), None);
    assert_eq!(parse_process_id("76 84"), None);
    assert_eq!(parse_process_id("+7684"), None);
}

#[test]
fn radix_text_values() {
    assert_eq!(radix_text(0, 10), "0");
    assert_eq!(radix_text(7684, 10), "7684");
    assert_eq!(radix_text(255, 16), "FF");
    assert_eq!(radix_text(5, 2), "101");
    assert_eq!(radix_text(u64::MAX, 10), "18446744073709551615");
    assert_eq!(radix_text(u64::MAX, 16), "FFFFFFFFFFFFFFFF");
}

#[test]
fn signed_decimal_text_values() {
    assert_eq!(signed_decimal_text(0), "0");
    assert_eq!(signed_decimal_text(-42), "-42");
    assert_eq!(signed_decimal_text(isize::MAX), isize::MAX.to_string());
    assert_eq!(signed_decimal_text(isize::MIN), isize::MIN.to_string());
}

#[test]
fn zero_padded_text_values() {
    assert_eq!(zero_padded_text("FF".to_string(), 8), "000000FF");
    assert_eq!(zero_padded_text("80070057".to_string(), 8), "80070057");
    assert_eq!(zero_padded_text("123456789".to_string(), 8), "123456789");
    assert_eq!(zero_padded_text(String::new(), 3), "000");
}

#[test]
fn pid_line_text() {
    assert_eq!(pid_line(7684), "The Process ID is 7684");
    assert_eq!(pid_line(0), "The Process ID is 0");
    assert_eq!(pid_line(u32::MAX), "The Process ID is 4294967295");
}

#[test]
fn handle_and_failure_display() {
    let h = ProcessHandle::from_raw(188).unwrap();
    assert_eq!(handle_display(&h), "HANDLE(188)");
    assert_eq!(
        failure_display(&failure(0x1, "odd")),
        "Error { code: HRESULT(0x00000001), message: \"odd\" }"
    );
}

#[test]
fn missing_target_prints_error_line() {
    let r = AccessResult::from_os(Err(failure(0x8007_0057, "The parameter is incorrect.")));
    assert_eq!(
        outcome_line(&r),
        "Failed to open process: Error { code: HRESULT(0x80070057), message: \"The parameter is incorrect.\" }"
    );
}

#[test]
fn reused_target_prints_handle_line() {
    let r = AccessResult::from_os(Ok(188));
    assert_eq!(outcome_line(&r), "Successfully opened process with handle: HANDLE(188)");
}

#[test]
fn denied_target_prints_error_line() {
    let r = AccessResult::from_os(Err(failure(0x8007_0005, "Access is denied.")));
    assert_eq!(
        outcome_line(&r),
        "Failed to open process: Error { code: HRESULT(0x80070005), message: \"Access is denied.\" }"
    );
}
