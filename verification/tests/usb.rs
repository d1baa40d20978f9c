use lemnos_linux::errors::OpenFailure;
use lemnos_linux::session::{close, close_after, opened, SessionRefusal, SessionState};
use lemnos_linux::usb::{
    check_read_endpoint, check_write_request, classify_open_error, describe_open_error, no_match_reason, gate_operation, needs_write,
    received, request_type, timeout_duration, ClaimedInterfaces, UsbDirection, UsbOpenError,
    UsbOperation, UsbRecipient, UsbRequestError, UsbRequestType,
};
use std::time::Duration;

#[test]
fn usb_open_error_classification_maps_access_busy_and_missing() {
    assert_eq!(classify_open_error(UsbOpenError::Access), OpenFailure::PermissionDenied);
    assert_eq!(classify_open_error(UsbOpenError::Busy), OpenFailure::AccessConflict);
    assert_eq!(classify_open_error(UsbOpenError::NoDevice), OpenFailure::SessionUnavailable);
    assert_eq!(classify_open_error(UsbOpenError::NotFound), OpenFailure::SessionUnavailable);
    assert_eq!(classify_open_error(UsbOpenError::Other), OpenFailure::TransportFailure);
    let (failure, reason) = describe_open_error(UsbOpenError::Access, 1, &[2], "Access denied (insufficient permissions)");
    assert_eq!(failure, OpenFailure::PermissionDenied);
    assert_eq!(reason, "failed to open Linux USB device on bus 1 ports 2: Access denied (insufficient permissions)");
    let (failure, reason) = describe_open_error(UsbOpenError::Busy, 1, &[2], "Resource busy");
    assert_eq!(failure, OpenFailure::AccessConflict);
    assert_eq!(reason, "Linux USB device on bus 1 ports 2 is already in use");
    for error in [UsbOpenError::NoDevice, UsbOpenError::NotFound] {
        let (failure, reason) = describe_open_error(error, 1, &[2], "No such device");
        assert_eq!(failure, OpenFailure::SessionUnavailable);
        assert_eq!(reason, "Linux USB device on bus 1 ports 2 is not currently available: No such device");
    }
    assert_eq!(no_match_reason(3, &[1, 4]), "no Linux USB device matched bus 3 ports 1.4");
}

#[test]
fn usb_session_rejects_operations_after_close_and_new_session_can_reopen() {
    let closed = close(opened());
    assert_eq!(gate_operation(closed, true, UsbOperation::BulkRead), Err(SessionRefusal::Closed));
    assert_eq!(gate_operation(closed, true, UsbOperation::BulkWrite), Err(SessionRefusal::Closed));
    let reopened = opened();
    assert_eq!(reopened, SessionState::Idle);
    assert_eq!(gate_operation(reopened, true, UsbOperation::BulkRead), Ok(()));
}

#[test]
fn usb_session_close_releases_claimed_interfaces() {
    let mut claimed = ClaimedInterfaces::new();
    claimed.remember(0, Some(1));
    claimed.remember(2, None);
    assert!(claimed.is_claimed(0));
    let released = claimed.take_all();
    assert_eq!(released, vec![0, 2]);
    assert!(!claimed.is_claimed(0));
    assert!(!claimed.is_claimed(2));
    assert!(claimed.take_all().is_empty());
    assert_eq!(close_after(opened(), true), SessionState::Closed);
    assert_eq!(close_after(opened(), false), SessionState::Idle);
    assert_eq!(gate_operation(close_after(opened(), false), true, UsbOperation::BulkRead), Ok(()));
}

#[test]
fn claimed_interfaces_are_released_in_increasing_order_once() {
    let mut claimed = ClaimedInterfaces::new();
    claimed.remember(5, None);
    claimed.remember(1, Some(2));
    claimed.remember(5, Some(1));
    claimed.remember(3, None);
    claimed.forget(3);
    assert_eq!(claimed.take_all(), vec![1, 5]);
}

#[test]
fn read_only_sessions_may_only_read() {
    let session = opened();
    assert_eq!(
        gate_operation(session, false, UsbOperation::ControlTransfer(UsbDirection::Out)),
        Err(SessionRefusal::ReadOnly)
    );
    assert_eq!(
        gate_operation(session, false, UsbOperation::ControlTransfer(UsbDirection::In)),
        Ok(())
    );
    assert_eq!(gate_operation(session, false, UsbOperation::InterruptRead), Ok(()));
    assert_eq!(gate_operation(session, false, UsbOperation::ClaimInterface), Err(SessionRefusal::ReadOnly));
    assert!(needs_write(UsbOperation::ReleaseInterface));
    assert!(!needs_write(UsbOperation::BulkRead));
}

#[test]
fn request_type_byte_matches_the_usb_layout() {
    assert_eq!(request_type(UsbDirection::In, UsbRequestType::Vendor, UsbRecipient::Interface), 0xC1);
    assert_eq!(request_type(UsbDirection::Out, UsbRequestType::Standard, UsbRecipient::Device), 0x00);
    assert_eq!(request_type(UsbDirection::Out, UsbRequestType::Class, UsbRecipient::Endpoint), 0x22);
    assert_eq!(request_type(UsbDirection::In, UsbRequestType::Reserved, UsbRecipient::Other), 0xE3);
}

#[test]
fn transfer_checks_reject_endpoint_zero_and_empty_payloads() {
    assert_eq!(check_read_endpoint(0), Err(UsbRequestError::ZeroEndpoint));
    assert_eq!(check_read_endpoint(0x81), Ok(()));
    assert_eq!(check_write_request(0, &[1]), Err(UsbRequestError::ZeroEndpoint));
    assert_eq!(check_write_request(1, &[]), Err(UsbRequestError::EmptyPayload));
    assert_eq!(check_write_request(1, &[0x55]), Ok(()));
}

#[test]
fn reads_hand_back_what_the_device_filled() {
    assert_eq!(received(vec![1, 2, 3, 4], 2), vec![1, 2]);
    assert_eq!(received(vec![1, 2], 5), vec![1, 2]);
}

#[test]
fn transfer_timeouts_fall_back_to_the_session_default() {
    let default = Duration::from_millis(100);
    assert_eq!(timeout_duration(Some(25), default), Duration::from_millis(25));
    assert_eq!(timeout_duration(None, default), default);
}

#[test]
fn usb_target_matches_bus_and_port_chain() {
    assert!(lemnos_linux::usb::is_usb_target(1, &[2, 3], 1, &[2, 3]));
    assert!(!lemnos_linux::usb::is_usb_target(2, &[2, 3], 1, &[2, 3]));
    assert!(!lemnos_linux::usb::is_usb_target(1, &[2], 1, &[2, 3]));
    assert!(!lemnos_linux::usb::is_usb_target(1, &[2, 4], 1, &[2, 3]));
    assert!(lemnos_linux::usb::is_usb_target(7, &[], 7, &[]));
}
