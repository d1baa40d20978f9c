//! The Linux USB transport: the bookkeeping of claimed interfaces, control
//! request types, timeouts, request checks and open-error classification.
use crate::config::duration_millis;
use std::collections::BTreeMap;
use vstd::std_specs::btree::{axiom_increasing_seq_meaning, increasing_seq, spec_keys_iter};
use vstd::laws_cmp::obeys_cmp;
use vstd::std_specs::iter::IteratorSpec;
use vstd::std_specs::cmp::OrdSpec;
use crate::errors::OpenFailure;
use crate::text::{push_str_chars, string_from_chars};
use crate::util::{format_usb_target, spec_format_usb_target};
use crate::session::{gate, spec_gate, SessionRefusal, SessionState};
use std::time::Duration;
use vstd::prelude::*;

verus! {

/// The interfaces a USB session has claimed, with the alternate setting
/// selected for each.
#[derive(Debug)]
pub struct ClaimedInterfaces {
    claimed: BTreeMap<u8, Option<u8>>,
}

impl View for ClaimedInterfaces {
    type V = Map<u8, Option<u8>>;

    closed spec fn view(&self) -> Map<u8, Option<u8>> {
        self.claimed@
    }
}

/// `s` lists the keys of `m` in increasing order, each once.
pub open spec fn ascending_keys(s: Seq<u8>, m: Map<u8, Option<u8>>) -> bool {
    &&& s.to_set() == m.dom()
    &&& s.no_duplicates()
    &&& forall|i: int, j: int| 0 <= i < j < s.len() ==> s[i] < s[j]
}

proof fn lemma_ascending_keys(keys: Seq<&u8>, out: Seq<u8>, m: Map<u8, Option<u8>>)
    requires
        keys.unref().to_set() == m.dom(),
        increasing_seq(keys),
        out == keys.map_values(|r: &u8| *r),
    ensures
        ascending_keys(out, m),
{
    broadcast use vstd::laws_cmp::group_laws_cmp;

    assert(obeys_cmp::<&u8>());
    axiom_increasing_seq_meaning(keys);
    assert(out =~= keys.unref());
    assert(out.len() == keys.len());
    assert forall|i: int, j: int| 0 <= i < j < out.len() implies out[i] < out[j] by {
        assert(OrdSpec::cmp_spec(&keys[i], &keys[j]) is Less);
        assert(out[i] == *keys[i]);
        assert(out[j] == *keys[j]);
    }
    assert forall|i: int, j: int| 0 <= i < out.len() && 0 <= j < out.len() && i != j implies out[i]
        != out[j] by {
        if i < j {
            assert(out[i] < out[j]);
        } else {
            assert(out[j] < out[i]);
        }
    }
}

impl ClaimedInterfaces {
    /// No interface claimed.
    pub fn new() -> (r: Self)
        ensures
            r@ == Map::<u8, Option<u8>>::empty(),
    {
        ClaimedInterfaces { claimed: BTreeMap::new() }
    }

    /// Records a successful claim (a later claim of the same interface
    /// replaces the recorded alternate setting).
    pub fn remember(&mut self, interface_number: u8, alternate_setting: Option<u8>)
        ensures
            final(self)@ == old(self)@.insert(interface_number, alternate_setting),
    {
        broadcast use vstd::std_specs::btree::group_btree_axioms;
        self.claimed.insert(interface_number, alternate_setting);
    }

    /// Records a successful release.
    pub fn forget(&mut self, interface_number: u8)
        ensures
            final(self)@ == old(self)@.remove(interface_number),
    {
        broadcast use vstd::std_specs::btree::group_btree_axioms;
        self.claimed.remove(&interface_number);
    }

    /// Whether an interface is recorded as claimed.
    pub fn is_claimed(&self, interface_number: u8) -> (r: bool)
        ensures
            r == self@.contains_key(interface_number),
    {
        broadcast use vstd::std_specs::btree::group_btree_axioms;
        self.claimed.contains_key(&interface_number)
    }

    /// Closing a session: hands out every claimed interface, in increasing
    /// order, for release, and forgets them all.
    pub fn take_all(&mut self) -> (r: Vec<u8>)
        ensures
            ascending_keys(r@, old(self)@),
            final(self)@ == Map::<u8, Option<u8>>::empty(),
    {
        broadcast use vstd::std_specs::btree::group_btree_axioms;
        let mut out: Vec<u8> = Vec::new();
        let ghost keys = spec_keys_iter(&self.claimed).remaining();
        for k in it: self.claimed.keys()
            invariant
                out@ == it.seq().take(it.index() as int).map_values(|r: &u8| *r),
        {
            out.push(*k);
            assert(out@ =~= it.seq().take(it.index() as int + 1).map_values(|r: &u8| *r));
        }
        assert(out@ =~= keys.map_values(|r: &u8| *r));
        proof {
            lemma_ascending_keys(keys, out@, old(self)@);
        }
        self.claimed.clear();
        out
    }
}


/// The direction of a control request.
#[derive(Debug, Clone, Copy, PartialEq, Eq, Structural)]
pub enum UsbDirection {
    In,
    Out,
}

/// The type field of a control request.
#[derive(Debug, Clone, Copy, PartialEq, Eq, Structural)]
pub enum UsbRequestType {
    Standard,
    Class,
    Vendor,
    Reserved,
}

/// The recipient field of a control request.
#[derive(Debug, Clone, Copy, PartialEq, Eq, Structural)]
pub enum UsbRecipient {
    Device,
    Interface,
    Endpoint,
    Other,
}

/// Bit 7 of `bmRequestType`: set for device-to-host requests.
pub open spec fn direction_bits(direction: UsbDirection) -> u8 {
    match direction {
        UsbDirection::In => 0x80u8,
        UsbDirection::Out => 0u8,
    }
}

/// Bits 5 and 6 of `bmRequestType`.
pub open spec fn request_type_bits(request_type: UsbRequestType) -> u8 {
    match request_type {
        UsbRequestType::Standard => 0u8,
        UsbRequestType::Class => 0x20u8,
        UsbRequestType::Vendor => 0x40u8,
        UsbRequestType::Reserved => 0x60u8,
    }
}

/// Bits 0 and 1 of `bmRequestType`.
pub open spec fn recipient_bits(recipient: UsbRecipient) -> u8 {
    match recipient {
        UsbRecipient::Device => 0u8,
        UsbRecipient::Interface => 1u8,
        UsbRecipient::Endpoint => 2u8,
        UsbRecipient::Other => 3u8,
    }
}

/// The `bmRequestType` byte of a control request: the three fields occupy
/// disjoint bits, so the byte is their sum (equally, their bitwise or).
pub fn request_type(direction: UsbDirection, kind: UsbRequestType, recipient: UsbRecipient) -> (r: u8)
    ensures
        r == direction_bits(direction) + request_type_bits(kind) + recipient_bits(recipient),
        r == direction_bits(direction) | request_type_bits(kind) | recipient_bits(recipient),
{
    let d: u8 = match direction {
        UsbDirection::In => 0x80,
        UsbDirection::Out => 0,
    };
    let t: u8 = match kind {
        UsbRequestType::Standard => 0,
        UsbRequestType::Class => 0x20,
        UsbRequestType::Vendor => 0x40,
        UsbRequestType::Reserved => 0x60,
    };
    let c: u8 = match recipient {
        UsbRecipient::Device => 0,
        UsbRecipient::Interface => 1,
        UsbRecipient::Endpoint => 2,
        UsbRecipient::Other => 3,
    };
    assert((d == 0x80u8 || d == 0u8) && (t == 0u8 || t == 0x20u8 || t == 0x40u8 || t == 0x60u8) && c
        < 4 ==> d | t | c == d + t + c) by (bit_vector);
    d + t + c
}

/// The timeout of one transfer: the request's own, in milliseconds, where
/// it gives one, else the session's default.
pub fn timeout_duration(timeout_ms: Option<u32>, default_timeout: Duration) -> (r: Duration)
    ensures
        match timeout_ms {
            Some(ms) => duration_millis(r) == ms as nat,
            None => r == default_timeout,
        },
{
    match timeout_ms {
        Some(ms) => Duration::from_millis(ms as u64),
        None => default_timeout,
    }
}

/// The operations of a USB session.
#[derive(Debug, Clone, Copy, PartialEq, Eq, Structural)]
pub enum UsbOperation {
    ControlTransfer(UsbDirection),
    BulkRead,
    BulkWrite,
    InterruptRead,
    InterruptWrite,
    ClaimInterface,
    ReleaseInterface,
}

/// Whether an operation needs an access that allows writing: outbound
/// control transfers, bulk and interrupt writes, and interface claims and
/// releases.
pub open spec fn spec_needs_write(op: UsbOperation) -> bool {
    match op {
        UsbOperation::ControlTransfer(direction) => direction == UsbDirection::Out,
        UsbOperation::BulkRead => false,
        UsbOperation::InterruptRead => false,
        _ => true,
    }
}

/// Executable form of [`spec_needs_write`].
pub fn needs_write(op: UsbOperation) -> (r: bool)
    ensures
        r == spec_needs_write(op),
{
    match op {
        UsbOperation::ControlTransfer(direction) => direction == UsbDirection::Out,
        UsbOperation::BulkRead => false,
        UsbOperation::InterruptRead => false,
        _ => true,
    }
}

/// The session check made before every USB operation.
pub fn gate_operation(state: SessionState, can_write: bool, op: UsbOperation) -> (r: Result<(), SessionRefusal>)
    ensures
        r == spec_gate(state, can_write, spec_needs_write(op)),
{
    let writes = needs_write(op);
    gate(state, can_write, writes)
}

/// Why the USB transport refuses a request before touching the device.
#[derive(Debug, Clone, Copy, PartialEq, Eq, Structural)]
pub enum UsbRequestError {
    /// Bulk and interrupt transfers need an endpoint above zero (endpoint
    /// zero is the control pipe).
    ZeroEndpoint,
    /// Bulk and interrupt writes need at least one byte.
    EmptyPayload,
}

/// The check of a bulk or interrupt read.
pub fn check_read_endpoint(endpoint: u8) -> (r: Result<(), UsbRequestError>)
    ensures
        r == (if endpoint == 0 { Err(UsbRequestError::ZeroEndpoint) } else { Ok(()) }),
{
    if endpoint == 0 {
        Err(UsbRequestError::ZeroEndpoint)
    } else {
        Ok(())
    }
}

/// The check of a bulk or interrupt write: the endpoint first, then the
/// payload.
pub fn check_write_request(endpoint: u8, payload: &[u8]) -> (r: Result<(), UsbRequestError>)
    ensures
        r == (if endpoint == 0 {
            Err(UsbRequestError::ZeroEndpoint)
        } else if payload@.len() == 0 {
            Err(UsbRequestError::EmptyPayload)
        } else {
            Ok(())
        }),
{
    if endpoint == 0 {
        Err(UsbRequestError::ZeroEndpoint)
    } else if payload.len() == 0 {
        Err(UsbRequestError::EmptyPayload)
    } else {
        Ok(())
    }
}

/// What a read hands back: the first `bytes_read` bytes of the buffer it
/// filled (all of it, should the device report more).
pub fn received(buffer: Vec<u8>, bytes_read: usize) -> (r: Vec<u8>)
    ensures
        r@ == (if bytes_read < buffer@.len() { buffer@.take(bytes_read as int) } else { buffer@ }),
{
    let mut buffer = buffer;
    buffer.truncate(bytes_read);
    buffer
}

/// The libusb errors that opening a device tells apart.
#[derive(Debug, Clone, Copy, PartialEq, Eq, Structural)]
pub enum UsbOpenError {
    Access,
    Busy,
    NoDevice,
    NotFound,
    Other,
}

/// How a failed open is reported.
pub open spec fn spec_classify_open(error: UsbOpenError) -> OpenFailure {
    match error {
        UsbOpenError::Access => OpenFailure::PermissionDenied,
        UsbOpenError::Busy => OpenFailure::AccessConflict,
        UsbOpenError::NoDevice | UsbOpenError::NotFound => OpenFailure::SessionUnavailable,
        UsbOpenError::Other => OpenFailure::TransportFailure,
    }
}

/// Classifies a failed open of a USB device.
pub fn classify_open_error(error: UsbOpenError) -> (r: OpenFailure)
    ensures
        r == spec_classify_open(error),
{
    match error {
        UsbOpenError::Access => OpenFailure::PermissionDenied,
        UsbOpenError::Busy => OpenFailure::AccessConflict,
        UsbOpenError::NoDevice | UsbOpenError::NotFound => OpenFailure::SessionUnavailable,
        UsbOpenError::Other => OpenFailure::TransportFailure,
    }
}

/// Whether an enumerated device is the one a session targets: the same bus
/// number and the same chain of hub ports.
pub fn is_usb_target(device_bus: u8, device_ports: &[u8], bus: u16, ports: &[u8]) -> (r: bool)
    ensures
        r == (device_bus as u16 == bus && device_ports@ == ports@),
{
    if device_bus as u16 != bus || device_ports.len() != ports.len() {
        return false;
    }
    let mut i: usize = 0;
    while i < ports.len()
        invariant
            device_ports@.len() == ports@.len(),
            i <= ports@.len(),
            device_ports@.take(i as int) == ports@.take(i as int),
        decreases ports.len() - i,
    {
        if device_ports[i] != ports[i] {
            assert(device_ports@[i as int] != ports@[i as int]);
            return false;
        }
        assert(device_ports@.take(i as int + 1) =~= device_ports@.take(i as int).push(device_ports@[i as int]));
        assert(ports@.take(i as int + 1) =~= ports@.take(i as int).push(ports@[i as int]));
        i = i + 1;
    }
    assert(device_ports@ =~= device_ports@.take(i as int));
    assert(ports@ =~= ports@.take(i as int));
    true
}

/// The reason of each failure class when opening the device on `target`,
/// given the text of the libusb error.
pub open spec fn spec_open_reason(failure: OpenFailure, target: Seq<char>, error: Seq<char>) -> Seq<char> {
    match failure {
        OpenFailure::AccessConflict => "Linux USB device on "@ + target + " is already in use"@,
        OpenFailure::SessionUnavailable => "Linux USB device on "@ + target + " is not currently available: "@
            + error,
        _ => "failed to open Linux USB device on "@ + target + ": "@ + error,
    }
}

/// A failed open of the device at `bus` behind `ports`, classified and
/// explained with the target it names.
pub fn describe_open_error(error: UsbOpenError, bus: u16, ports: &[u8], error_text: &str) -> (r: (
    OpenFailure,
    String,
))
    ensures
        r.0 == spec_classify_open(error),
        r.1@ == spec_open_reason(r.0, spec_format_usb_target(bus, ports@), error_text@),
{
    let failure = classify_open_error(error);
    let target = format_usb_target(bus, ports);
    let mut out: Vec<char> = Vec::new();
    match failure {
        OpenFailure::AccessConflict => {
            push_str_chars(&mut out, "Linux USB device on ");
            push_str_chars(&mut out, target.as_str());
            push_str_chars(&mut out, " is already in use");
        },
        OpenFailure::SessionUnavailable => {
            push_str_chars(&mut out, "Linux USB device on ");
            push_str_chars(&mut out, target.as_str());
            push_str_chars(&mut out, " is not currently available: ");
            push_str_chars(&mut out, error_text);
        },
        _ => {
            push_str_chars(&mut out, "failed to open Linux USB device on ");
            push_str_chars(&mut out, target.as_str());
            push_str_chars(&mut out, ": ");
            push_str_chars(&mut out, error_text);
        },
    }
    (failure, string_from_chars(&out))
}

/// The reason given when no enumerated device sits at the target.
pub fn no_match_reason(bus: u16, ports: &[u8]) -> (r: String)
    ensures
        r@ == "no Linux USB device matched "@ + spec_format_usb_target(bus, ports@),
{
    let target = format_usb_target(bus, ports);
    let mut out: Vec<char> = Vec::new();
    push_str_chars(&mut out, "no Linux USB device matched ");
    push_str_chars(&mut out, target.as_str());
    string_from_chars(&out)
}

/// The `bmRequestType` byte is laid out as USB 2.0 (9.3) fixes it: bit 7
/// is set exactly for device-to-host requests, bits 6 and 5 give the type
/// (0 standard, 1 class, 2 vendor, 3 reserved) and bits 1 and 0 the
/// recipient (0 device, 1 interface, 2 endpoint, 3 other).
pub proof fn law_request_type_layout(direction: UsbDirection, kind: UsbRequestType, recipient: UsbRecipient)
    ensures
        ({
            let b = direction_bits(direction) + request_type_bits(kind) + recipient_bits(recipient);
            &&& b < 256
            &&& (b >= 128) == (direction == UsbDirection::In)
            &&& (b % 128) / 32 == match kind {
                UsbRequestType::Standard => 0int,
                UsbRequestType::Class => 1int,
                UsbRequestType::Vendor => 2int,
                UsbRequestType::Reserved => 3int,
            }
            &&& b % 32 == match recipient {
                UsbRecipient::Device => 0int,
                UsbRecipient::Interface => 1int,
                UsbRecipient::Endpoint => 2int,
                UsbRecipient::Other => 3int,
            }
        }),
{
}

} // verus!
