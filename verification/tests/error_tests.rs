use shared_interfaces::error::CommonError;
use shared_interfaces::status::EscrowStatus;

#[test]
fn test_error_codes() {
    assert_eq!(CommonError::NotInitialized.code(), 100);
    assert_eq!(CommonError::AlreadyInitialized.code(), 101);
    assert_eq!(CommonError::Unauthorized.code(), 102);
    assert_eq!(CommonError::InvalidAmount.code(), 103);
    assert_eq!(CommonError::InsufficientBalance.code(), 104);
    assert_eq!(CommonError::Paused.code(), 105);
    assert_eq!(CommonError::NotFound.code(), 106);
}

#[test]
fn test_escrow_status() {
    assert_eq!(EscrowStatus::Locked, EscrowStatus::Locked);
    assert_ne!(EscrowStatus::Locked, EscrowStatus::Released);
}
