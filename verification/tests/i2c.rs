use lemnos_linux::errors::{IoErrorKind, OpenFailure};
use lemnos_linux::i2c::{
    busy_reason, classify_open_error, describe_open_error, describe_select_error, is_smbus_unsupported_kind_or_errno, read_plan_registers,
    smbus_write_fallback, smbus_write_read_fallback, SmbusFallbackError, SmbusWrite,
};
use lemnos_linux::session::{close, gate, opened, SessionRefusal};

/// A register file that answers SMBus commands, with block transfers
/// optionally refused as unsupported.
struct SmbusFallbackDevice {
    registers: [u8; 256],
    supports_block_read: bool,
    supports_block_write: bool,
}

impl SmbusFallbackDevice {
    fn new() -> Self {
        Self { registers: [0; 256], supports_block_read: false, supports_block_write: false }
    }

    fn with_block_read_support(mut self) -> Self {
        self.supports_block_read = true;
        self
    }

    fn with_block_write_support(mut self) -> Self {
        self.supports_block_write = true;
        self
    }

    fn write(&mut self, bytes: &[u8]) {
        let plan = smbus_write_fallback(bytes);
        let mut fall_back = true;
        match plan.attempt {
            Some(SmbusWrite::Byte(_)) => fall_back = false,
            Some(SmbusWrite::ByteData(register, value)) => {
                self.registers[register as usize] = value;
                fall_back = false;
            }
            Some(SmbusWrite::BlockData(register, values)) => {
                if self.supports_block_write {
                    let start = register as usize;
                    self.registers[start..start + values.len()].copy_from_slice(&values);
                    fall_back = false;
                } else {
                    assert!(is_smbus_unsupported_kind_or_errno(IoErrorKind::Unsupported, None));
                }
            }
            None => {}
        }
        if fall_back {
            for (register, value) in plan.sequence {
                self.registers[register as usize] = value;
            }
        }
    }

    fn write_read(&mut self, write: &[u8], length: u32) -> Result<Vec<u8>, SmbusFallbackError> {
        let plan = smbus_write_read_fallback(write, length)?;
        if plan.try_block && self.supports_block_read {
            let start = plan.register as usize;
            return Ok(self.registers[start..start + length as usize].to_vec());
        }
        Ok(read_plan_registers(&plan).into_iter().map(|r| self.registers[r as usize]).collect())
    }
}

#[test]
fn smbus_write_read_fallback_reads_sequential_registers_without_i2c_rdwr() {
    let mut device = SmbusFallbackDevice::new();
    device.registers[0x10] = 0xAA;
    device.registers[0x11] = 0xBB;
    device.registers[0x12] = 0xCC;

    let bytes = device.write_read(&[0x10], 3).expect("fallback read");
    assert_eq!(bytes, vec![0xAA, 0xBB, 0xCC]);
}

#[test]
fn smbus_write_fallback_writes_sequential_registers_without_i2c_block_write() {
    let mut device = SmbusFallbackDevice::new();

    device.write(&[0x20, 0x11, 0x22, 0x33]);
    assert_eq!(device.registers[0x20], 0x11);
    assert_eq!(device.registers[0x21], 0x22);
    assert_eq!(device.registers[0x22], 0x33);
}

#[test]
fn smbus_write_read_fallback_rejects_multi_byte_register_prefixes() {
    let mut device = SmbusFallbackDevice::new();
    let error = device
        .write_read(&[0x00, 0x10], 2)
        .expect_err("multi-byte register prefix should be rejected");
    assert_eq!(error, SmbusFallbackError::RegisterPrefixNotSingleByte);
}

#[test]
fn smbus_helpers_use_block_operations_when_available() {
    let mut device = SmbusFallbackDevice::new().with_block_read_support().with_block_write_support();
    device.registers[0x30] = 0x10;
    device.registers[0x31] = 0x20;
    device.registers[0x32] = 0x30;

    let bytes = device.write_read(&[0x30], 3).expect("block read");
    assert_eq!(bytes, vec![0x10, 0x20, 0x30]);

    device.write(&[0x40, 0xAA, 0xBB]);
    assert_eq!(device.registers[0x40], 0xAA);
    assert_eq!(device.registers[0x41], 0xBB);
}

#[test]
fn smbus_write_plan_wraps_registers_and_prefers_block_writes() {
    let plan = smbus_write_fallback(&[0xFF, 1, 2]);
    assert_eq!(plan.attempt, Some(SmbusWrite::BlockData(0xFF, vec![1, 2])));
    assert_eq!(plan.sequence, vec![(0xFF, 1), (0x00, 2)]);
    let long: Vec<u8> = (0..40).collect();
    let plan = smbus_write_fallback(&long);
    assert_eq!(plan.attempt, None);
    assert_eq!(plan.sequence.len(), 39);
    assert_eq!(smbus_write_fallback(&[]).attempt, None);
    assert_eq!(smbus_write_fallback(&[7]).attempt, Some(SmbusWrite::Byte(7)));
}

#[test]
fn classify_open_error_reports_access_conflict_for_kernel_owned_i2c_device() {
    assert_eq!(classify_open_error(IoErrorKind::Other, Some(16)), OpenFailure::AccessConflict);
    let reason = busy_reason(0x50, "/dev/i2c-16", Some("ee1004"));
    assert!(reason.contains("kernel driver 'ee1004'"));
    assert_eq!(
        reason,
        "Linux I2C address 0x0050 on '/dev/i2c-16' is already claimed by kernel driver 'ee1004'"
    );
}

#[test]
fn classify_open_error_reports_permission_denied_for_i2c_devnode_access() {
    assert_eq!(
        classify_open_error(IoErrorKind::PermissionDenied, Some(13)),
        OpenFailure::PermissionDenied
    );
    assert_eq!(classify_open_error(IoErrorKind::Other, Some(1)), OpenFailure::PermissionDenied);
    let error = std::io::Error::from_raw_os_error(13).to_string();
    let (failure, reason) =
        describe_open_error(IoErrorKind::PermissionDenied, Some(13), 0x50, "/dev/i2c-1", None, &error);
    assert_eq!(failure, OpenFailure::PermissionDenied);
    assert!(reason.contains("/dev/i2c-1"));
    assert_eq!(reason, format!("failed to open Linux I2C address 0x0050 on '/dev/i2c-1': {error}"));
}

#[test]
fn classify_open_error_reports_session_unavailable_for_missing_or_detached_target() {
    assert_eq!(classify_open_error(IoErrorKind::Other, Some(6)), OpenFailure::SessionUnavailable);
    assert_eq!(classify_open_error(IoErrorKind::NotFound, None), OpenFailure::SessionUnavailable);
    assert_eq!(classify_open_error(IoErrorKind::Other, Some(5)), OpenFailure::TransportFailure);
    let (failure, reason) =
        describe_open_error(IoErrorKind::Other, Some(6), 0x50, "/dev/i2c-1", None, "No such device or address");
    assert_eq!(failure, OpenFailure::SessionUnavailable);
    assert!(reason.contains("not currently available"));
    assert_eq!(
        reason,
        "Linux I2C address 0x0050 on '/dev/i2c-1' is not currently available: No such device or address"
    );
}

#[test]
fn i2c_open_and_select_reasons_for_each_class() {
    let (failure, reason) = describe_open_error(IoErrorKind::Other, Some(16), 0x50, "/dev/i2c-16", Some("ee1004"), "busy");
    assert_eq!(failure, OpenFailure::AccessConflict);
    assert_eq!(reason, "Linux I2C address 0x0050 on '/dev/i2c-16' is already claimed by kernel driver 'ee1004'");
    let (failure, reason) = describe_open_error(IoErrorKind::Other, Some(5), 0x50, "/dev/i2c-1", None, "I/O error");
    assert_eq!(failure, OpenFailure::TransportFailure);
    assert_eq!(reason, "failed to open Linux I2C device '/dev/i2c-1': I/O error");
    let (failure, reason) = describe_select_error(IoErrorKind::Other, Some(16), 0x48, "/dev/i2c-1", "busy");
    assert_eq!(failure, OpenFailure::AccessConflict);
    assert_eq!(
        reason,
        "Linux I2C address 0x0048 on '/dev/i2c-1' is already in use by another kernel or userspace client"
    );
    let (failure, reason) = describe_select_error(IoErrorKind::PermissionDenied, None, 0x48, "/dev/i2c-1", "denied");
    assert_eq!(failure, OpenFailure::PermissionDenied);
    assert_eq!(reason, "failed to select Linux I2C address 0x0048 on '/dev/i2c-1': denied");
    let (failure, reason) = describe_select_error(IoErrorKind::NotFound, None, 0x48, "/dev/i2c-1", "gone");
    assert_eq!(failure, OpenFailure::SessionUnavailable);
    assert_eq!(reason, "Linux I2C address 0x0048 on '/dev/i2c-1' is not currently available: gone");
}

#[test]
fn i2c_sessions_reject_operations_after_close_and_fresh_sessions_can_reopen() {
    let session = opened();
    let closed = close(session);
    assert_eq!(gate(closed, true, false), Err(SessionRefusal::Closed));
    assert_eq!(gate(closed, true, true), Err(SessionRefusal::Closed));
    let reopened = opened();
    assert_eq!(gate(reopened, true, false), Ok(()));
}
