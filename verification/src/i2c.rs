//! The Linux I2C transport: request checks, the SMBus fallbacks used when an
//! adapter cannot do plain I2C transfers, error classification, and address
//! selection on a shared controller.
use crate::errors::{classify_open, spec_classify_open, IoErrorKind, OpenFailure};
use crate::paths::{path_join, LinuxPaths};
use crate::text::{chars_of, dec_digits, hex_digits, push_hex_padded, push_str_chars, string_from_chars, zero_pad};
use vstd::prelude::*;

verus! {

/// Adapters without plain I2C support report `EOPNOTSUPP`-like failures:
/// an `Unsupported` kind, or `EINVAL`, `ENOTTY`, `ENOSYS` or `EOPNOTSUPP`.
pub open spec fn spec_smbus_unsupported(kind: IoErrorKind, raw_os_error: Option<i32>) -> bool {
    kind == IoErrorKind::Unsupported || raw_os_error == Some(22i32) || raw_os_error == Some(25i32)
        || raw_os_error == Some(38i32) || raw_os_error == Some(95i32)
}

/// Whether a failed transfer should be retried through SMBus.
pub fn is_smbus_unsupported_kind_or_errno(kind: IoErrorKind, raw_os_error: Option<i32>) -> (r: bool)
    ensures
        r == spec_smbus_unsupported(kind, raw_os_error),
{
    if kind == IoErrorKind::Unsupported {
        return true;
    }
    match raw_os_error {
        Some(e) => e == 22 || e == 25 || e == 38 || e == 95,
        None => false,
    }
}

/// One SMBus write command.
#[derive(Debug, Clone, PartialEq, Eq)]
pub enum SmbusWrite {
    /// `smbus_write_byte(value)`.
    Byte(u8),
    /// `smbus_write_byte_data(register, value)`.
    ByteData(u8, u8),
    /// `smbus_write_i2c_block_data(register, values)`.
    BlockData(u8, Vec<u8>),
}

/// How a plain write is carried out over SMBus: an optional single command
/// tried first, and the register-by-register writes used when there is no
/// such command, or when the block write is refused as unsupported.
#[derive(Debug, Clone, PartialEq, Eq)]
pub struct SmbusWritePlan {
    pub attempt: Option<SmbusWrite>,
    pub sequence: Vec<(u8, u8)>,
}

/// The register that the `index`-th byte after `register` lands in: the
/// register counter wraps around at 256.
pub open spec fn reg_at(register: u8, index: int) -> u8 {
    ((register + index) % 256) as u8
}

/// Register/value pairs for writing `values` from `register` on.
pub open spec fn byte_data_sequence(register: u8, values: Seq<u8>) -> Seq<(u8, u8)> {
    Seq::new(values.len(), |i: int| (reg_at(register, i), values[i]))
}

pub open spec fn spec_smbus_write_attempt(bytes: Seq<u8>) -> Option<SmbusWrite> {
    if bytes.len() == 0 {
        None
    } else if bytes.len() == 1 {
        Some(SmbusWrite::Byte(bytes[0]))
    } else if bytes.len() == 2 {
        Some(SmbusWrite::ByteData(bytes[0], bytes[1]))
    } else if bytes.len() <= 33 {
        None
    } else {
        None
    }
}

/// Whether the plan begins with a block write of `bytes[1..]` at `bytes[0]`.
pub open spec fn uses_block_write(bytes: Seq<u8>) -> bool {
    3 <= bytes.len() <= 33
}

/// Whether the register-by-register writes are part of the plan.
pub open spec fn uses_sequence(bytes: Seq<u8>) -> bool {
    bytes.len() >= 3
}

/// The SMBus rendering of a plain I2C write of `bytes`: nothing for an empty
/// write, a byte command for one byte, a byte-data command for two, a block
/// write of up to 32 data bytes (with the byte-data sequence as fallback),
/// and the byte-data sequence for longer writes.
pub fn smbus_write_fallback(bytes: &[u8]) -> (r: SmbusWritePlan)
    ensures
        uses_block_write(bytes@) ==> (r.attempt matches Some(SmbusWrite::BlockData(reg, vals)) && reg
            == bytes@[0] && vals@ == bytes@.skip(1)),
        !uses_block_write(bytes@) ==> r.attempt == spec_smbus_write_attempt(bytes@),
        bytes@.len() == 1 ==> r.attempt == Some(SmbusWrite::Byte(bytes@[0])),
        bytes@.len() == 2 ==> r.attempt == Some(SmbusWrite::ByteData(bytes@[0], bytes@[1])),
        uses_sequence(bytes@) ==> r.sequence@ == byte_data_sequence(bytes@[0], bytes@.skip(1)),
        !uses_sequence(bytes@) ==> r.sequence@.len() == 0,
{
    let n = bytes.len();
    if n == 0 {
        return SmbusWritePlan { attempt: None, sequence: Vec::new() };
    }
    if n == 1 {
        return SmbusWritePlan { attempt: Some(SmbusWrite::Byte(bytes[0])), sequence: Vec::new() };
    }
    if n == 2 {
        return SmbusWritePlan {
            attempt: Some(SmbusWrite::ByteData(bytes[0], bytes[1])),
            sequence: Vec::new(),
        };
    }
    let register = bytes[0];
    let mut values: Vec<u8> = Vec::new();
    let mut sequence: Vec<(u8, u8)> = Vec::new();
    let mut i: usize = 1;
    while i < n
        invariant
            1 <= i <= n,
            n == bytes@.len(),
            register == bytes@[0],
            values@ == bytes@.subrange(1, i as int),
            sequence@ == byte_data_sequence(register, bytes@.subrange(1, i as int)),
        decreases n - i,
    {
        let index = i - 1;
        let reg = register.wrapping_add((index % 256) as u8);
        proof {
            assert(reg == reg_at(register, index as int)) by {
                assert((register + (index % 256)) % 256 == (register + index) % 256);
            }
        }
        values.push(bytes[i]);
        sequence.push((reg, bytes[i]));
        i = i + 1;
        assert(values@ =~= bytes@.subrange(1, i as int));
        assert(sequence@ =~= byte_data_sequence(register, bytes@.subrange(1, i as int)));
    }
    assert(bytes@.subrange(1, n as int) =~= bytes@.skip(1));
    if n <= 33 {
        SmbusWritePlan { attempt: Some(SmbusWrite::BlockData(register, values)), sequence }
    } else {
        SmbusWritePlan { attempt: None, sequence }
    }
}

/// How a write-then-read is carried out over SMBus.
#[derive(Debug, Clone, Copy, PartialEq, Eq, Structural)]
pub struct SmbusReadPlan {
    /// The register named by the single write byte.
    pub register: u8,
    /// Bytes to read.
    pub length: u32,
    /// Try one block read first (any failure falls back to byte reads).
    pub try_block: bool,
}

/// Why an SMBus fallback cannot serve a request.
#[derive(Debug, Clone, Copy, PartialEq, Eq, Structural)]
pub enum SmbusFallbackError {
    /// SMBus reads need exactly one register byte as the write part.
    RegisterPrefixNotSingleByte,
}

/// The SMBus rendering of `write_read(write, read_length)`: the write must be
/// a single register byte; a block read is tried for 1 to 32 bytes, and
/// otherwise (or if it fails) bytes are read one register at a time.
pub fn smbus_write_read_fallback(write: &[u8], read_length: u32) -> (r: Result<
    SmbusReadPlan,
    SmbusFallbackError,
>)
    ensures
        write@.len() != 1 ==> r == Err::<SmbusReadPlan, SmbusFallbackError>(
            SmbusFallbackError::RegisterPrefixNotSingleByte,
        ),
        write@.len() == 1 ==> r == Ok::<SmbusReadPlan, SmbusFallbackError>(
            SmbusReadPlan {
                register: write@[0],
                length: read_length,
                try_block: 0 < read_length <= 32,
            },
        ),
{
    if write.len() != 1 {
        return Err(SmbusFallbackError::RegisterPrefixNotSingleByte);
    }
    Ok(SmbusReadPlan { register: write[0], length: read_length, try_block: 0 < read_length && read_length <= 32 })
}

/// The registers read one at a time by an SMBus read plan.
pub fn read_plan_registers(plan: &SmbusReadPlan) -> (r: Vec<u8>)
    requires
        plan.length <= usize::MAX,
    ensures
        r@.len() == plan.length,
        forall|i: int| 0 <= i < r@.len() ==> r@[i] == reg_at(plan.register, i),
{
    let n = plan.length as usize;
    let mut out: Vec<u8> = Vec::new();
    let mut i: usize = 0;
    while i < n
        invariant
            i <= n,
            n == plan.length,
            out@.len() == i,
            forall|k: int| 0 <= k < i ==> out@[k] == reg_at(plan.register, k),
        decreases n - i,
    {
        let reg = plan.register.wrapping_add((i % 256) as u8);
        assert(reg == reg_at(plan.register, i as int)) by {
            assert((plan.register + (i % 256)) % 256 == (plan.register + i) % 256);
        }
        out.push(reg);
        i = i + 1;
    }
    out
}

/// Both SMBus renderings address the same registers as the I2C transfer
/// they replace: the byte-data sequence writes `values[i]` to the register
/// `i` places after the first, wrapping at 256, exactly as an
/// auto-incrementing block write does.
pub proof fn law_smbus_sequence_matches_block(register: u8, values: Seq<u8>, i: int)
    requires
        0 <= i < values.len(),
    ensures
        byte_data_sequence(register, values)[i] == (reg_at(register, i), values[i]),
        reg_at(register, i) as int == (register as int + i) % 256,
{
}

/// The single SMBus command tried in place of a short I2C write writes what
/// that write would: one byte is sent as it is, and of two bytes the first
/// names the register and the second is the value stored there, the same
/// pair as the byte-data sequence of the write; an empty write sends nothing.
pub proof fn law_smbus_attempt_writes_what_the_transfer_would(bytes: Seq<u8>)
    ensures
        bytes.len() == 0 ==> spec_smbus_write_attempt(bytes) is None,
        bytes.len() == 1 ==> spec_smbus_write_attempt(bytes) == Some(SmbusWrite::Byte(bytes[0])),
        bytes.len() == 2 ==> (spec_smbus_write_attempt(bytes) matches Some(SmbusWrite::ByteData(reg, val))
            && reg == bytes[0] && val == bytes[1] && byte_data_sequence(bytes[0], bytes.skip(1)) == seq![
            (reg, val),
        ]),
{
    if bytes.len() == 2 {
        assert(reg_at(bytes[0], 0) == bytes[0]);
        assert(byte_data_sequence(bytes[0], bytes.skip(1)) =~= seq![(bytes[0], bytes[1])]);
    }
}

/// A plain I2C request that the transport refuses before touching the bus.
#[derive(Debug, Clone, Copy, PartialEq, Eq, Structural)]
pub enum I2cRequestError {
    /// A read of zero bytes.
    EmptyRead,
    /// A write with no payload.
    EmptyWrite,
    /// A transaction with no operations.
    EmptyTransaction,
}

/// One step of an I2C transaction.
#[derive(Debug, Clone, PartialEq, Eq)]
pub enum I2cOperation {
    Read { length: u32 },
    Write { bytes: Vec<u8> },
}

/// `read(length)` needs a length above zero.
pub fn check_read(length: u32) -> (r: Result<(), I2cRequestError>)
    ensures
        r == if length == 0 {
            Err::<(), I2cRequestError>(I2cRequestError::EmptyRead)
        } else {
            Ok(())
        },
{
    if length == 0 {
        Err(I2cRequestError::EmptyRead)
    } else {
        Ok(())
    }
}

/// `write(bytes)` needs a payload.
pub fn check_write(bytes: &[u8]) -> (r: Result<(), I2cRequestError>)
    ensures
        r == if bytes@.len() == 0 {
            Err::<(), I2cRequestError>(I2cRequestError::EmptyWrite)
        } else {
            Ok(())
        },
{
    if bytes.len() == 0 {
        Err(I2cRequestError::EmptyWrite)
    } else {
        Ok(())
    }
}

/// `write_read(write, read_length)` needs both parts non-empty; the write is
/// checked first.
pub fn check_write_read(write: &[u8], read_length: u32) -> (r: Result<(), I2cRequestError>)
    ensures
        r == if write@.len() == 0 {
            Err::<(), I2cRequestError>(I2cRequestError::EmptyWrite)
        } else if read_length == 0 {
            Err::<(), I2cRequestError>(I2cRequestError::EmptyRead)
        } else {
            Ok(())
        },
{
    if write.len() == 0 {
        Err(I2cRequestError::EmptyWrite)
    } else if read_length == 0 {
        Err(I2cRequestError::EmptyRead)
    } else {
        Ok(())
    }
}

pub open spec fn is_write_op(op: I2cOperation) -> bool {
    op is Write
}

/// Whether a transaction writes, which a read-only session may not do.
pub fn transaction_writes(operations: &[I2cOperation]) -> (r: bool)
    ensures
        r == exists|i: int| 0 <= i < operations@.len() && is_write_op(#[trigger] operations@[i]),
{
    let mut i: usize = 0;
    while i < operations.len()
        invariant
            i <= operations@.len(),
            forall|k: int| 0 <= k < i ==> !is_write_op(#[trigger] operations@[k]),
        decreases operations.len() - i,
    {
        match &operations[i] {
            I2cOperation::Write { .. } => {
                return true;
            },
            I2cOperation::Read { .. } => {},
        }
        i = i + 1;
    }
    false
}

/// A transaction needs at least one operation.
pub fn check_transaction(operations: &[I2cOperation]) -> (r: Result<(), I2cRequestError>)
    ensures
        r == if operations@.len() == 0 {
            Err::<(), I2cRequestError>(I2cRequestError::EmptyTransaction)
        } else {
            Ok(())
        },
{
    if operations.len() == 0 {
        Err(I2cRequestError::EmptyTransaction)
    } else {
        Ok(())
    }
}

/// The result that an SMBus fallback read must have: exactly as many bytes
/// as the caller's buffer.
pub fn fallback_read_fits(returned: usize, requested: usize) -> (r: bool)
    ensures
        r == (returned == requested),
{
    returned == requested
}

/// `<dev>/i2c-<bus>`, the device node of an I2C bus.
pub fn resolve_devnode(paths: &LinuxPaths, bus: u32) -> (r: String)
    ensures
        r@ == path_join(paths.dev_root@, "i2c-"@ + dec_digits(bus as nat)),
{
    paths.i2c_devnode(bus)
}

/// The device node a session opens: the descriptor's `devnode` property
/// when it has one, else the conventional node of its bus.
pub fn session_devnode(paths: &LinuxPaths, devnode_property: Option<&str>, bus: u32) -> (r: String)
    ensures
        match devnode_property {
            Some(p) => r@ == p@,
            None => r@ == path_join(paths.dev_root@, "i2c-"@ + dec_digits(bus as nat)),
        },
{
    match devnode_property {
        Some(p) => string_from_chars(&chars_of(p)),
        None => resolve_devnode(paths, bus),
    }
}

/// `Linux I2C address 0x<address:04x> on '<devnode>'`.
pub open spec fn spec_address_note(address: u16, devnode: Seq<char>) -> Seq<char> {
    "Linux I2C address 0x"@ + zero_pad(hex_digits(address as nat), 4) + " on '"@ + devnode + "'"@
}

/// The text that names an address on a bus in I2C error messages.
pub fn address_note(address: u16, devnode: &str) -> (r: String)
    ensures
        r@ == spec_address_note(address, devnode@),
{
    let mut out: Vec<char> = Vec::new();
    push_str_chars(&mut out, "Linux I2C address 0x");
    push_hex_padded(&mut out, address as u64, 4);
    push_str_chars(&mut out, " on '");
    push_str_chars(&mut out, devnode);
    push_str_chars(&mut out, "'");
    assert(out@ =~= spec_address_note(address, devnode@));
    string_from_chars(&out)
}

/// Classifies a failed open of an I2C client: access errors, `EBUSY` (the
/// address is claimed), absence (not found, `ENXIO`, `ENODEV`), or a
/// transport failure.
pub fn classify_open_error(kind: IoErrorKind, errno: Option<i32>) -> (r: OpenFailure)
    ensures
        r == spec_classify_open(kind, errno, false),
{
    classify_open(kind, errno, false)
}

/// The reason given when an address is busy: the kernel driver that claims
/// it, when the descriptor names one.
pub open spec fn spec_busy_reason(note: Seq<char>, driver: Option<Seq<char>>) -> Seq<char> {
    match driver {
        Some(d) => note + " is already claimed by kernel driver '"@ + d + "'"@,
        None => note + " is already in use by another kernel or userspace client"@,
    }
}

/// The reason of an `AccessConflict` for a busy I2C address.
pub fn busy_reason(address: u16, devnode: &str, driver: Option<&str>) -> (r: String)
    ensures
        r@ == spec_busy_reason(
            spec_address_note(address, devnode@),
            match driver {
                Some(d) => Some(d@),
                None => None,
            },
        ),
{
    let note = address_note(address, devnode);
    let mut out: Vec<char> = chars_of(note.as_str());
    match driver {
        Some(d) => {
            push_str_chars(&mut out, " is already claimed by kernel driver '");
            push_str_chars(&mut out, d);
            push_str_chars(&mut out, "'");
        },
        None => {
            push_str_chars(&mut out, " is already in use by another kernel or userspace client");
        },
    }
    proof {
        match driver {
            Some(d) => {
                assert(out@ =~= note@ + " is already claimed by kernel driver '"@ + d@ + "'"@);
            },
            None => {},
        }
    }
    string_from_chars(&out)
}

/// The reason of each failure class when opening an I2C client at
/// `address` on `devnode`, given the text of the operating-system error.
pub open spec fn spec_open_reason(
    failure: OpenFailure,
    address: u16,
    devnode: Seq<char>,
    driver: Option<Seq<char>>,
    error: Seq<char>,
) -> Seq<char> {
    let note = spec_address_note(address, devnode);
    match failure {
        OpenFailure::PermissionDenied => "failed to open "@ + note + ": "@ + error,
        OpenFailure::AccessConflict => spec_busy_reason(note, driver),
        OpenFailure::SessionUnavailable => note + " is not currently available: "@ + error,
        OpenFailure::TransportFailure => "failed to open Linux I2C device '"@ + devnode + "': "@ + error,
    }
}

/// A failed open of an I2C client, classified and explained: the class from
/// the error kind and raw OS error, and the reason that names the address,
/// the device node, the claiming driver where busy, and the error text.
pub fn describe_open_error(
    kind: IoErrorKind,
    errno: Option<i32>,
    address: u16,
    devnode: &str,
    driver: Option<&str>,
    error: &str,
) -> (r: (OpenFailure, String))
    ensures
        r.0 == spec_classify_open(kind, errno, false),
        r.1@ == spec_open_reason(
            r.0,
            address,
            devnode@,
            match driver {
                Some(d) => Some(d@),
                None => None,
            },
            error@,
        ),
{
    let failure = classify_open_error(kind, errno);
    let reason = match failure {
        OpenFailure::AccessConflict => busy_reason(address, devnode, driver),
        OpenFailure::PermissionDenied => {
            let note = address_note(address, devnode);
            let mut out: Vec<char> = Vec::new();
            push_str_chars(&mut out, "failed to open ");
            push_str_chars(&mut out, note.as_str());
            push_str_chars(&mut out, ": ");
            push_str_chars(&mut out, error);
            string_from_chars(&out)
        },
        OpenFailure::SessionUnavailable => {
            let note = address_note(address, devnode);
            let mut out: Vec<char> = Vec::new();
            push_str_chars(&mut out, note.as_str());
            push_str_chars(&mut out, " is not currently available: ");
            push_str_chars(&mut out, error);
            string_from_chars(&out)
        },
        OpenFailure::TransportFailure => {
            let mut out: Vec<char> = Vec::new();
            push_str_chars(&mut out, "failed to open Linux I2C device '");
            push_str_chars(&mut out, devnode);
            push_str_chars(&mut out, "': ");
            push_str_chars(&mut out, error);
            string_from_chars(&out)
        },
    };
    (failure, reason)
}

/// The reason of each failure class when a controller session cannot
/// select `address` on `devnode`.
pub open spec fn spec_select_reason(failure: OpenFailure, address: u16, devnode: Seq<char>, error: Seq<char>) -> Seq<
    char,
> {
    let note = spec_address_note(address, devnode);
    match failure {
        OpenFailure::AccessConflict => spec_busy_reason(note, None),
        OpenFailure::SessionUnavailable => note + " is not currently available: "@ + error,
        _ => "failed to select "@ + note + ": "@ + error,
    }
}

/// A failed address selection on a controller, classified as an open is
/// and explained; a busy address names no driver.
pub fn describe_select_error(kind: IoErrorKind, errno: Option<i32>, address: u16, devnode: &str, error: &str) -> (r: (
    OpenFailure,
    String,
))
    ensures
        r.0 == spec_classify_open(kind, errno, false),
        r.1@ == spec_select_reason(r.0, address, devnode@, error@),
{
    let failure = classify_open_error(kind, errno);
    let reason = match failure {
        OpenFailure::AccessConflict => busy_reason(address, devnode, None),
        OpenFailure::SessionUnavailable => {
            let note = address_note(address, devnode);
            let mut out: Vec<char> = Vec::new();
            push_str_chars(&mut out, note.as_str());
            push_str_chars(&mut out, " is not currently available: ");
            push_str_chars(&mut out, error);
            string_from_chars(&out)
        },
        _ => {
            let note = address_note(address, devnode);
            let mut out: Vec<char> = Vec::new();
            push_str_chars(&mut out, "failed to select ");
            push_str_chars(&mut out, note.as_str());
            push_str_chars(&mut out, ": ");
            push_str_chars(&mut out, error);
            string_from_chars(&out)
        },
    };
    (failure, reason)
}

/// What a controller session does before talking to `address`.
#[derive(Debug, Clone, Copy, PartialEq, Eq, Structural)]
pub enum AddressStep {
    /// Open the bus device node with `address` selected.
    Open,
    /// Re-target the open device at `address`.
    Select,
    /// `address` is already selected.
    Reuse,
}

pub open spec fn spec_address_step(opened: bool, current: Option<u16>, address: u16) -> AddressStep {
    if !opened {
        AddressStep::Open
    } else if current == Some(address) {
        AddressStep::Reuse
    } else {
        AddressStep::Select
    }
}

/// The step a controller session takes to talk to `address`, given whether
/// its device node is open and which address is selected.
pub fn address_step(opened: bool, current: Option<u16>, address: u16) -> (r: AddressStep)
    ensures
        r == spec_address_step(opened, current, address),
{
    if !opened {
        AddressStep::Open
    } else {
        match current {
            Some(c) => if c == address {
                AddressStep::Reuse
            } else {
                AddressStep::Select
            },
            None => AddressStep::Select,
        }
    }
}

/// A successful step leaves the node open with `address` selected, whatever
/// the step was; asking for the same address again then takes no step, and
/// asking for another one re-targets without reopening.
pub proof fn law_address_selection_is_sticky(address: u16, other: u16)
    requires
        other != address,
    ensures
        spec_address_step(true, Some(address), address) == AddressStep::Reuse,
        spec_address_step(true, Some(address), other) == AddressStep::Select,
{
}

} // verus!
