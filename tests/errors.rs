use frida_worker::decimal::decimal_string;
use frida_worker::error::{validate_no_nul, ErrorResponse, FridaError};

#[test]
fn codes_of_every_kind() {
    let cases = vec![
        (FridaError::DeviceNotFound("d".to_string()), "DEVICE_NOT_FOUND"),
        (FridaError::ProcessNotFound(1), "PROCESS_NOT_FOUND"),
        (FridaError::SessionNotFound(1), "SESSION_NOT_FOUND"),
        (FridaError::ScriptNotFound(1), "SCRIPT_NOT_FOUND"),
        (FridaError::AttachFailed("x".to_string()), "ATTACH_FAILED"),
        (FridaError::DetachFailed("x".to_string()), "DETACH_FAILED"),
        (FridaError::ScriptLoadFailed("x".to_string()), "SCRIPT_LOAD_FAILED"),
        (FridaError::ScriptUnloadFailed("x".to_string()), "SCRIPT_UNLOAD_FAILED"),
        (FridaError::SpawnFailed("x".to_string()), "SPAWN_FAILED"),
        (FridaError::ResumeFailed("x".to_string()), "RESUME_FAILED"),
        (FridaError::KillFailed("x".to_string()), "KILL_FAILED"),
        (FridaError::RpcFailed("x".to_string()), "RPC_FAILED"),
        (FridaError::InvalidInput("x".to_string()), "INVALID_INPUT"),
        (FridaError::Timeout, "TIMEOUT"),
        (FridaError::Internal("x".to_string()), "INTERNAL_ERROR"),
    ];
    for (e, code) in cases {
        assert_eq!(e.code(), code);
    }
}

#[test]
fn messages_carry_details() {
    assert_eq!(FridaError::DeviceNotFound("usb".to_string()).message(), "Device not found: usb");
    assert_eq!(FridaError::ProcessNotFound(99999).message(), "Process not found: 99999");
    assert_eq!(FridaError::SessionNotFound(0).message(), "Session not found: 0");
    assert_eq!(FridaError::ScriptNotFound(12).message(), "Script not found: 12");
    assert_eq!(FridaError::RpcFailed("closed".to_string()).message(), "RPC call failed: closed");
    assert_eq!(FridaError::Timeout.message(), "Operation timed out");
    assert_eq!(FridaError::Internal("bug".to_string()).message(), "Internal error: bug");
}

#[test]
fn error_response_from_error() {
    let r = ErrorResponse::from(FridaError::SessionNotFound(7));
    assert_eq!(r.code, "SESSION_NOT_FOUND");
    assert_eq!(r.message, "Session not found: 7");
    assert!(r.details.is_none());
}

#[test]
fn decimal_writing() {
    assert_eq!(decimal_string(0), "0");
    assert_eq!(decimal_string(9), "9");
    assert_eq!(decimal_string(10), "10");
    assert_eq!(decimal_string(1234), "1234");
    assert_eq!(decimal_string(u64::MAX), "18446744073709551615");
}

#[test]
fn nul_is_rejected() {
    assert!(validate_no_nul("program", "/bin/ls").is_ok());
    assert!(validate_no_nul("program", "").is_ok());
    match validate_no_nul("program", "/bin\0/ls") {
        Err(FridaError::InvalidInput(d)) => assert_eq!(d, "program cannot contain NUL bytes"),
        _ => panic!("expected InvalidInput"),
    }
    assert!(validate_no_nul("arg", "\0").is_err());
}
