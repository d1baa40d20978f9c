//! The checks every transport session makes before it touches the bus: a
//! closed session serves nothing, and a read-only session does not write.
use vstd::prelude::*;

verus! {

/// The lifecycle of a transport session.
#[derive(Debug, Clone, Copy, PartialEq, Eq, Structural)]
pub enum SessionState {
    /// Open and waiting for requests.
    Idle,
    /// Closed: every further request is refused.
    Closed,
}

/// Why a session refuses a request.
#[derive(Debug, Clone, Copy, PartialEq, Eq, Structural)]
pub enum SessionRefusal {
    /// `BusError::SessionUnavailable`: the session has been closed.
    Closed,
    /// `BusError::PermissionDenied`: the request writes and the session's
    /// access is read-only.
    ReadOnly,
}

pub open spec fn spec_gate(state: SessionState, can_write: bool, writes: bool) -> Result<(), SessionRefusal> {
    if state == SessionState::Closed {
        Err(SessionRefusal::Closed)
    } else if writes && !can_write {
        Err(SessionRefusal::ReadOnly)
    } else {
        Ok(())
    }
}

/// A newly opened session.
pub fn opened() -> (r: SessionState)
    ensures
        r == SessionState::Idle,
{
    SessionState::Idle
}

/// The state after `close`.
pub fn close(state: SessionState) -> (r: SessionState)
    ensures
        r == SessionState::Closed,
{
    SessionState::Closed
}

pub open spec fn spec_close_after(state: SessionState, released: bool) -> SessionState {
    if released {
        SessionState::Closed
    } else {
        state
    }
}

/// The state after `close` of a session that must first release something
/// (the USB transport's claimed interfaces, a sysfs line or channel the
/// session exported): closed once the release succeeded, and as it was when
/// the release failed, whose error is then returned.
pub fn close_after(state: SessionState, released: bool) -> (r: SessionState)
    ensures
        r == spec_close_after(state, released),
{
    if released {
        SessionState::Closed
    } else {
        state
    }
}

/// `ensure_open`: a closed session refuses every operation.
pub fn ensure_open(state: SessionState) -> (r: Result<(), SessionRefusal>)
    ensures
        r == spec_gate(state, true, false),
{
    if state == SessionState::Closed {
        Err(SessionRefusal::Closed)
    } else {
        Ok(())
    }
}

/// The check made by the GPIO, PWM, I2C, UART and USB sessions: closed
/// first, then the write permission for requests that write.
pub fn gate(state: SessionState, can_write: bool, writes: bool) -> (r: Result<(), SessionRefusal>)
    ensures
        r == spec_gate(state, can_write, writes),
{
    ensure_open(state)?;
    if writes && !can_write {
        Err(SessionRefusal::ReadOnly)
    } else {
        Ok(())
    }
}

/// The check made by the SPI session, which every one of whose requests but
/// `configuration` drives the bus: the write permission is checked before
/// whether the session is closed.
pub fn gate_write_first(state: SessionState, can_write: bool, writes: bool) -> (r: Result<
    (),
    SessionRefusal,
>)
    ensures
        writes && !can_write ==> r == Err::<(), SessionRefusal>(SessionRefusal::ReadOnly),
        !(writes && !can_write) ==> r == spec_gate(state, can_write, writes),
{
    if writes && !can_write {
        return Err(SessionRefusal::ReadOnly);
    }
    ensure_open(state)
}

/// After `close`, every request is refused, whatever the access; a session
/// opened afresh serves reads, and writes when its access allows them; and a
/// session whose release failed on close still serves as before.
pub proof fn law_closed_sessions_refuse_and_fresh_sessions_serve(can_write: bool, writes: bool)
    ensures
        forall|state: SessionState| spec_gate(#[trigger] spec_close_after(state, false), can_write, writes)
            == spec_gate(state, can_write, writes),
        forall|state: SessionState| spec_gate(#[trigger] spec_close_after(state, true), can_write, writes)
            == Err::<(), SessionRefusal>(SessionRefusal::Closed),
        spec_gate(SessionState::Closed, can_write, writes) is Err,
        spec_gate(SessionState::Closed, can_write, writes) == Err::<(), SessionRefusal>(
            SessionRefusal::Closed,
        ),
        spec_gate(SessionState::Idle, can_write, false) is Ok,
        spec_gate(SessionState::Idle, true, writes) is Ok,
{
}

} // verus!
