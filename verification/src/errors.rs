//! How failures of the operating system are reported to Lemnos callers.
use vstd::prelude::*;

verus! {

/// The kinds of `std::io::Error` that the transports tell apart.
#[derive(Debug, Clone, Copy, PartialEq, Eq, Structural)]
pub enum IoErrorKind {
    NotFound,
    PermissionDenied,
    WouldBlock,
    TimedOut,
    InvalidInput,
    InvalidData,
    Unsupported,
    Other,
}

/// The bus error a failed open or address selection becomes.
#[derive(Debug, Clone, Copy, PartialEq, Eq, Structural)]
pub enum OpenFailure {
    /// `BusError::PermissionDenied`.
    PermissionDenied,
    /// `BusError::AccessConflict`: someone else holds the device.
    AccessConflict,
    /// `BusError::SessionUnavailable`: the device is not there (now).
    SessionUnavailable,
    /// `BusError::TransportFailure`: anything else.
    TransportFailure,
}

/// `EPERM` or `EACCES`.
pub open spec fn is_access_errno(errno: Option<i32>) -> bool {
    errno == Some(1i32) || errno == Some(13i32)
}

/// How the I2C and SPI transports classify an `open` (or an address
/// selection) that failed with `kind` and raw OS error `errno`: access
/// errors first, then `EBUSY`, then absence (`ENOENT` only where
/// `enoent_missing`, `ENXIO`, `ENODEV`, or a not-found kind).
pub open spec fn spec_classify_open(kind: IoErrorKind, errno: Option<i32>, enoent_missing: bool) -> OpenFailure {
    if kind == IoErrorKind::PermissionDenied || is_access_errno(errno) {
        OpenFailure::PermissionDenied
    } else if errno == Some(16i32) {
        OpenFailure::AccessConflict
    } else if kind == IoErrorKind::NotFound || errno == Some(6i32) || errno == Some(19i32) || (
    enoent_missing && errno == Some(2i32)) {
        OpenFailure::SessionUnavailable
    } else {
        OpenFailure::TransportFailure
    }
}

/// Classifies a failed open from its error kind and raw OS error.
pub fn classify_open(kind: IoErrorKind, errno: Option<i32>, enoent_missing: bool) -> (r: OpenFailure)
    ensures
        r == spec_classify_open(kind, errno, enoent_missing),
{
    let e = match errno {
        Some(e) => e,
        None => -1,
    };
    let has = errno.is_some();
    if kind == IoErrorKind::PermissionDenied || (has && (e == 1 || e == 13)) {
        OpenFailure::PermissionDenied
    } else if has && e == 16 {
        OpenFailure::AccessConflict
    } else if kind == IoErrorKind::NotFound || (has && (e == 6 || e == 19 || (enoent_missing && e
        == 2))) {
        OpenFailure::SessionUnavailable
    } else {
        OpenFailure::TransportFailure
    }
}

} // verus!
