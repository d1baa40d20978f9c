//! The Linux serial-port transport: configuration checks, how read timeouts
//! are reported, and how failures to open a port are classified.
use crate::errors::IoErrorKind;
use crate::text::{push_str_chars, string_from_chars};
use vstd::prelude::*;

verus! {

#[derive(Debug, Clone, Copy, PartialEq, Eq, Structural)]
pub enum UartDataBits {
    Five,
    Six,
    Seven,
    Eight,
}

#[derive(Debug, Clone, Copy, PartialEq, Eq, Structural)]
pub enum UartParity {
    /// No parity bit.
    Disabled,
    Even,
    Odd,
}

#[derive(Debug, Clone, Copy, PartialEq, Eq, Structural)]
pub enum UartStopBits {
    One,
    Two,
}

#[derive(Debug, Clone, Copy, PartialEq, Eq, Structural)]
pub enum UartFlowControl {
    /// No flow control.
    Disabled,
    Software,
    Hardware,
}

/// A serial line configuration.
#[derive(Debug, Clone, Copy, PartialEq, Eq, Structural)]
pub struct UartConfiguration {
    pub baud_rate: u32,
    pub data_bits: UartDataBits,
    pub parity: UartParity,
    pub stop_bits: UartStopBits,
    pub flow_control: UartFlowControl,
}

/// Why a serial configuration is refused.
#[derive(Debug, Clone, Copy, PartialEq, Eq, Structural)]
pub enum UartConfigError {
    ZeroBaudRate,
}

/// Refuses a zero baud rate.
pub fn validate_configuration(c: &UartConfiguration) -> (r: Result<(), UartConfigError>)
    ensures
        r == if c.baud_rate == 0 {
            Err::<(), UartConfigError>(UartConfigError::ZeroBaudRate)
        } else {
            Ok(())
        },
{
    if c.baud_rate == 0 {
        Err(UartConfigError::ZeroBaudRate)
    } else {
        Ok(())
    }
}

/// The error kinds reported by the serial-port library when opening a port.
#[derive(Debug, Clone, Copy, PartialEq, Eq, Structural)]
pub enum SerialErrorKind {
    NoDevice,
    InvalidInput,
    Unknown,
    Io(IoErrorKind),
}

/// The bus error a failed port open becomes.
#[derive(Debug, Clone, Copy, PartialEq, Eq, Structural)]
pub enum UartOpenFailure {
    SessionUnavailable,
    InvalidConfiguration,
    PermissionDenied,
    AccessConflict,
    TransportFailure,
}

pub open spec fn spec_classify_open(kind: SerialErrorKind) -> UartOpenFailure {
    match kind {
        SerialErrorKind::NoDevice => UartOpenFailure::SessionUnavailable,
        SerialErrorKind::InvalidInput => UartOpenFailure::InvalidConfiguration,
        SerialErrorKind::Io(IoErrorKind::PermissionDenied) => UartOpenFailure::PermissionDenied,
        SerialErrorKind::Io(IoErrorKind::NotFound) => UartOpenFailure::SessionUnavailable,
        SerialErrorKind::Io(IoErrorKind::WouldBlock) => UartOpenFailure::AccessConflict,
        _ => UartOpenFailure::TransportFailure,
    }
}

/// Classifies a failed port open: a missing device or path is unavailable,
/// bad input is a configuration error, a would-block lock is a conflict.
pub fn classify_open_error(kind: SerialErrorKind) -> (r: UartOpenFailure)
    ensures
        r == spec_classify_open(kind),
{
    match kind {
        SerialErrorKind::NoDevice => UartOpenFailure::SessionUnavailable,
        SerialErrorKind::InvalidInput => UartOpenFailure::InvalidConfiguration,
        SerialErrorKind::Io(k) => match k {
            IoErrorKind::PermissionDenied => UartOpenFailure::PermissionDenied,
            IoErrorKind::NotFound => UartOpenFailure::SessionUnavailable,
            IoErrorKind::WouldBlock => UartOpenFailure::AccessConflict,
            _ => UartOpenFailure::TransportFailure,
        },
        SerialErrorKind::Unknown => UartOpenFailure::TransportFailure,
    }
}

/// A read that times out or would block has simply read nothing.
pub fn read_error_is_empty_read(kind: IoErrorKind) -> (r: bool)
    ensures
        r == (kind == IoErrorKind::TimedOut || kind == IoErrorKind::WouldBlock),
{
    kind == IoErrorKind::TimedOut || kind == IoErrorKind::WouldBlock
}

/// Why a read or write is refused before reaching the port.
#[derive(Debug, Clone, Copy, PartialEq, Eq, Structural)]
pub enum UartRequestError {
    ZeroLengthRead,
    EmptyWrite,
}

/// Reads need room for at least one byte.
pub fn check_read(max_bytes: usize) -> (r: Result<(), UartRequestError>)
    ensures
        r == if max_bytes == 0 {
            Err::<(), UartRequestError>(UartRequestError::ZeroLengthRead)
        } else {
            Ok(())
        },
{
    if max_bytes == 0 {
        Err(UartRequestError::ZeroLengthRead)
    } else {
        Ok(())
    }
}

/// Writes need a payload.
pub fn check_write(bytes: &[u8]) -> (r: Result<(), UartRequestError>)
    ensures
        r == if bytes@.len() == 0 {
            Err::<(), UartRequestError>(UartRequestError::EmptyWrite)
        } else {
            Ok(())
        },
{
    if bytes.len() == 0 {
        Err(UartRequestError::EmptyWrite)
    } else {
        Ok(())
    }
}

/// What a read returns: the first `read` bytes of the buffer.
pub fn received(buffer: Vec<u8>, read: usize) -> (r: Vec<u8>)
    requires
        read <= buffer@.len(),
    ensures
        r@ == buffer@.take(read as int),
{
    let mut b = buffer;
    b.truncate(read);
    b
}

/// The reason of each failure class when opening the port `devnode`,
/// given the text of the serial-port error.
pub open spec fn spec_open_reason(failure: UartOpenFailure, devnode: Seq<char>, error: Seq<char>) -> Seq<char> {
    match failure {
        UartOpenFailure::SessionUnavailable => "Linux UART device '"@ + devnode
            + "' is not currently available: "@ + error,
        UartOpenFailure::InvalidConfiguration => "invalid Linux UART target '"@ + devnode + "': "@ + error,
        UartOpenFailure::AccessConflict => "Linux UART device '"@ + devnode + "' is already in use"@,
        _ => "failed to open Linux UART device '"@ + devnode + "': "@ + error,
    }
}

/// A failed port open, classified and explained.
pub fn describe_open_error(kind: SerialErrorKind, devnode: &str, error: &str) -> (r: (UartOpenFailure, String))
    ensures
        r.0 == spec_classify_open(kind),
        r.1@ == spec_open_reason(r.0, devnode@, error@),
{
    let failure = classify_open_error(kind);
    let mut out: Vec<char> = Vec::new();
    match failure {
        UartOpenFailure::SessionUnavailable => {
            push_str_chars(&mut out, "Linux UART device '");
            push_str_chars(&mut out, devnode);
            push_str_chars(&mut out, "' is not currently available: ");
            push_str_chars(&mut out, error);
        },
        UartOpenFailure::InvalidConfiguration => {
            push_str_chars(&mut out, "invalid Linux UART target '");
            push_str_chars(&mut out, devnode);
            push_str_chars(&mut out, "': ");
            push_str_chars(&mut out, error);
        },
        UartOpenFailure::AccessConflict => {
            push_str_chars(&mut out, "Linux UART device '");
            push_str_chars(&mut out, devnode);
            push_str_chars(&mut out, "' is already in use");
        },
        _ => {
            push_str_chars(&mut out, "failed to open Linux UART device '");
            push_str_chars(&mut out, devnode);
            push_str_chars(&mut out, "': ");
            push_str_chars(&mut out, error);
        },
    }
    (failure, string_from_chars(&out))
}

} // verus!
