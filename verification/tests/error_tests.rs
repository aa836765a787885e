use axvm_core::error::{AxvmError, ErrorSeverity};
use std::io;

#[test]
fn test_error_display() {
    let err = AxvmError::KvmInit("test error".to_string());
    assert_eq!(err.message(), "KVM initialization failed: test error");
}

#[test]
fn test_error_severity() {
    assert_eq!(AxvmError::KvmInit(String::new()).severity(), ErrorSeverity::Fatal);
    assert_eq!(AxvmError::Timeout(String::new()).severity(), ErrorSeverity::Error);
}

#[test]
fn test_error_recoverability() {
    assert!(!AxvmError::KvmInit(String::new()).is_recoverable());
    assert!(AxvmError::Timeout(String::new()).is_recoverable());
}

#[test]
fn test_error_shutdown_requirement() {
    assert!(AxvmError::VmCreation(String::new()).requires_shutdown());
    assert!(!AxvmError::Timeout(String::new()).requires_shutdown());
}

#[test]
fn test_io_error_conversion() {
    let io_err = io::Error::new(io::ErrorKind::NotFound, "file not found");
    let axvm_err: AxvmError = io_err.into();
    assert!(matches!(axvm_err, AxvmError::IoError(_)));
}

#[test]
fn test_error_messages_by_class() {
    let err = AxvmError::Timeout("t".to_string());
    assert_eq!(err.message(), "Operation timed out: t");
    let err = AxvmError::InvalidConfiguration("bad".to_string());
    assert_eq!(err.message(), "Invalid configuration: bad");
    assert_eq!(err.severity(), ErrorSeverity::Warning);
    assert_eq!(AxvmError::DeviceNotFound(String::new()).severity(), ErrorSeverity::Info);
    assert_eq!(AxvmError::LockPoisoned(String::new()).severity(), ErrorSeverity::Critical);
}
