//! The relay's session state machine.
//!
//! The relay accepts exactly one control connection at a time; while that
//! session lives, it accepts data connections one by one and relays each
//! through the control stream. While no tunnel is active it races the next
//! accept against a bounded wait and, when the wait elapses, probes the
//! control stream without blocking so a dead client is noticed while idle.
//!
//! The surrounding process owns the sockets and the timer; it reports each
//! outcome as a `RelayEvent` and performs the returned `RelayAction`.

use vstd::prelude::*;

use crate::copy::ClosedSocket;
use crate::copy::CopyError;

verus! {

/// Interval of inactivity, in seconds, after which the idle relay probes the
/// control stream.
pub const PROBE_INTERVAL_SECS: u64 = 5;

/// One session's state. At most one session and, within it, at most one
/// tunnel is ever active: the machine is in exactly one of these states, and
/// the control stream is only probed in `AwaitingData`, never while a tunnel
/// runs in `Proxying`.
#[derive(Clone, Copy, Debug, PartialEq, Eq, Structural)]
pub enum RelayState {
    /// Blocked on accepting a control connection; no session yet.
    AwaitingControl,
    /// A session is live; racing a data accept against the probe interval.
    AwaitingData,
    /// A tunnel is live; the copy engine has exclusive use of both streams.
    Proxying,
    /// The session is over; the process tears it down and starts a new one.
    Closed,
}

/// What an idle-time, non-blocking probe of the control stream showed.
/// `Alive` covers both a would-block (nothing to read) and readable data;
/// only a zero-length read means the peer is gone.
#[derive(Clone, Copy, Debug, PartialEq, Eq, Structural)]
pub enum ProbeOutcome {
    EndOfStream,
    Alive,
}

/// What happened at the relay's current suspension point.
#[derive(Clone, Copy, Debug, PartialEq, Eq)]
pub enum RelayEvent {
    /// A control connection was accepted: a session begins.
    ControlAccepted,
    /// A data connection was accepted: a tunnel begins.
    DataAccepted,
    /// The bounded wait elapsed with no data connection; the control stream
    /// was probed with the given outcome.
    Elapsed(ProbeOutcome),
    /// The tunnel's copy engine run finished with this result.
    CopyDone(Result<ClosedSocket, CopyError>),
}

/// What the relay process must do next.
#[derive(Clone, Copy, Debug, PartialEq, Eq, Structural)]
pub enum RelayAction {
    /// Block on accepting a control connection.
    AcceptControl,
    /// Race a data accept against the probe interval; on elapse, probe the
    /// control stream without blocking.
    AcceptDataOrProbe,
    /// Run the copy engine over the control stream and the data connection,
    /// control stream as side A.
    RunTunnel,
    /// Tear the session down; the outer loop returns to accepting control.
    EndSession,
}

/// The action the relay must perform while sitting in a state.
pub open spec fn spec_relay_action(s: RelayState) -> RelayAction {
    match s {
        RelayState::AwaitingControl => RelayAction::AcceptControl,
        RelayState::AwaitingData => RelayAction::AcceptDataOrProbe,
        RelayState::Proxying => RelayAction::RunTunnel,
        RelayState::Closed => RelayAction::EndSession,
    }
}

/// The whole transition relation of a session. A data-side close or a probe
/// that still finds the peer alive keeps the session; a control-side close,
/// a probe that finds end-of-stream, or a copy error ends it. An event that
/// cannot occur in a state leaves the state unchanged.
pub open spec fn spec_relay_step(s: RelayState, e: RelayEvent) -> RelayState {
    match (s, e) {
        (RelayState::AwaitingControl, RelayEvent::ControlAccepted) => RelayState::AwaitingData,
        (RelayState::AwaitingData, RelayEvent::DataAccepted) => RelayState::Proxying,
        (RelayState::AwaitingData, RelayEvent::Elapsed(ProbeOutcome::EndOfStream)) => (
        RelayState::Closed),
        (RelayState::AwaitingData, RelayEvent::Elapsed(ProbeOutcome::Alive)) => (
        RelayState::AwaitingData),
        (RelayState::Proxying, RelayEvent::CopyDone(Ok(ClosedSocket::First))) => RelayState::Closed,
        (RelayState::Proxying, RelayEvent::CopyDone(Ok(ClosedSocket::Second))) => (
        RelayState::AwaitingData),
        (RelayState::Proxying, RelayEvent::CopyDone(Err(_))) => RelayState::Closed,
        _ => s,
    }
}

/// Advance one session by one event; also hands back the action for the new
/// state.
pub fn relay_step(s: RelayState, e: RelayEvent) -> (r: (RelayState, RelayAction))
    ensures
        r.0 == spec_relay_step(s, e),
        r.1 == spec_relay_action(r.0),
{
    let next = match (s, e) {
        (RelayState::AwaitingControl, RelayEvent::ControlAccepted) => RelayState::AwaitingData,
        (RelayState::AwaitingData, RelayEvent::DataAccepted) => RelayState::Proxying,
        (
            RelayState::AwaitingData,
            RelayEvent::Elapsed(ProbeOutcome::EndOfStream),
        ) => RelayState::Closed,
        (RelayState::AwaitingData, RelayEvent::Elapsed(ProbeOutcome::Alive)) => (
        RelayState::AwaitingData),
        (RelayState::Proxying, RelayEvent::CopyDone(Ok(ClosedSocket::First))) => RelayState::Closed,
        (RelayState::Proxying, RelayEvent::CopyDone(Ok(ClosedSocket::Second))) => (
        RelayState::AwaitingData),
        (RelayState::Proxying, RelayEvent::CopyDone(Err(_))) => RelayState::Closed,
        _ => s,
    };
    let action = match next {
        RelayState::AwaitingControl => RelayAction::AcceptControl,
        RelayState::AwaitingData => RelayAction::AcceptDataOrProbe,
        RelayState::Proxying => RelayAction::RunTunnel,
        RelayState::Closed => RelayAction::EndSession,
    };
    (next, action)
}

/// Interpret the non-blocking liveness probe: a completed read of zero bytes
/// is end-of-stream; a read of data or a probe that could not read (would
/// block, or failed) leaves the session alive.
pub fn probe_outcome(read: Option<usize>) -> (o: ProbeOutcome)
    ensures
        o == ProbeOutcome::EndOfStream <==> read == Some(0usize),
{
    match read {
        Some(0) => ProbeOutcome::EndOfStream,
        _ => ProbeOutcome::Alive,
    }
}

/// Idle liveness: while a session is idle (no tunnel active), a probe that
/// finds the control stream at end-of-stream ends the session at that very
/// step — the relay does not wait for the next data connection. Since the
/// idle relay probes after each elapsed interval, a closed control stream
/// ends the session within one probe interval of the close.
pub proof fn lemma_idle_liveness()
    ensures
        spec_relay_step(RelayState::AwaitingData, RelayEvent::Elapsed(ProbeOutcome::EndOfStream))
            == RelayState::Closed,
        spec_relay_action(RelayState::Closed) == RelayAction::EndSession,
{
}

/// A session never comes back: once closed, every further event leaves it
/// closed. A new control connection is accepted only by starting a fresh
/// session from `AwaitingControl`, so at most one session is ever live.
pub proof fn lemma_closed_is_terminal(e: RelayEvent)
    ensures
        spec_relay_step(RelayState::Closed, e) == RelayState::Closed,
{
}

/// Session continuity: a tunnel that ends with only the data side closed
/// returns the session to awaiting data, and the very next accepted data
/// connection starts a new tunnel — with no control connection re-accepted
/// in between.
pub proof fn lemma_session_continuity()
    ensures
        spec_relay_step(
            RelayState::Proxying,
            RelayEvent::CopyDone(Ok(ClosedSocket::Second)),
        ) == RelayState::AwaitingData,
        spec_relay_step(RelayState::AwaitingData, RelayEvent::DataAccepted) == RelayState::Proxying,
        spec_relay_action(RelayState::Proxying) == RelayAction::RunTunnel,
{
}

} // verus!
