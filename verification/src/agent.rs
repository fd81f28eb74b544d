//! The agent's state machine.
//!
//! The agent holds the other end of the control stream. The protocol has no
//! framing and no explicit "new connection" message: the first chunk the
//! agent reads from the control stream is both the signal that a consumer
//! connected and the first bytes of that consumer's payload. The agent must
//! therefore open the target connection only once it has such a chunk, and
//! must replay the chunk to the target, whole and first, before relaying
//! anything else — this ordering is the protocol's only synchronization and
//! every reimplementation must keep it.
//!
//! The surrounding process reads the control stream, connects to the target
//! and runs the copy engine; it reports each outcome as an `AgentEvent` and
//! performs the returned `AgentAction`.

use vstd::prelude::*;

use crate::copy::ClosedSocket;
use crate::copy::CopyError;
use crate::copy::ReadOutcome;

verus! {

/// The agent's state.
#[derive(Clone, Copy, Debug, PartialEq, Eq, Structural)]
pub enum AgentState {
    /// Blocked reading the control stream, waiting for a first chunk.
    AwaitingSignal,
    /// A tunnel is live between the control stream and the target.
    Relaying,
    /// The control stream closed; the agent is done and does not retry.
    Terminated,
}

/// What happened at the agent's current suspension point.
#[derive(Debug, PartialEq, Eq)]
pub enum AgentEvent {
    /// A read on the control stream completed with this outcome.
    ControlRead(ReadOutcome),
    /// The tunnel's copy engine run finished with this result; the control
    /// stream was side A of the run.
    TunnelDone(Result<ClosedSocket, CopyError>),
}

/// What the agent process must do next.
#[derive(Clone, Debug, PartialEq, Eq)]
pub enum AgentAction {
    /// Keep blocking on a read of the control stream.
    AwaitControl,
    /// Open a connection to the target, write exactly these bytes to it
    /// first, then run the copy engine over the control stream (side A) and
    /// the target connection (side B).
    OpenTargetAndReplay(Vec<u8>),
    /// The session is over: report the disconnect and exit cleanly.
    Exit,
}

/// The whole transition relation of the agent, as state and action. A
/// non-empty first chunk starts a tunnel and is replayed to the target
/// verbatim; end-of-stream (or a failed read, or a tunnel that saw the
/// control side close first) terminates the agent; a tunnel that ended any
/// other way returns it to waiting for the next signal.
pub open spec fn spec_agent_step(s: AgentState, e: AgentEvent) -> (AgentState, AgentAction) {
    match (s, e) {
        (AgentState::AwaitingSignal, AgentEvent::ControlRead(ReadOutcome::Data(d))) => {
            if d@.len() == 0 {
                (AgentState::Terminated, AgentAction::Exit)
            } else {
                (AgentState::Relaying, AgentAction::OpenTargetAndReplay(d))
            }
        },
        (AgentState::AwaitingSignal, AgentEvent::ControlRead(ReadOutcome::Closed)) => (
            AgentState::Terminated,
            AgentAction::Exit,
        ),
        (AgentState::AwaitingSignal, AgentEvent::ControlRead(ReadOutcome::Failed)) => (
            AgentState::Terminated,
            AgentAction::Exit,
        ),
        (AgentState::Relaying, AgentEvent::TunnelDone(Ok(ClosedSocket::First))) => (
            AgentState::Terminated,
            AgentAction::Exit,
        ),
        (AgentState::Relaying, AgentEvent::TunnelDone(Ok(ClosedSocket::Second))) => (
            AgentState::AwaitingSignal,
            AgentAction::AwaitControl,
        ),
        (AgentState::Relaying, AgentEvent::TunnelDone(Err(_))) => (
            AgentState::AwaitingSignal,
            AgentAction::AwaitControl,
        ),
        (AgentState::Terminated, _) => (AgentState::Terminated, AgentAction::Exit),
        (_, _) => (s, AgentAction::AwaitControl),
    }
}

/// Advance the agent by one event.
pub fn agent_step(s: AgentState, e: AgentEvent) -> (r: (AgentState, AgentAction))
    ensures
        r == spec_agent_step(s, e),
{
    match (s, e) {
        (AgentState::AwaitingSignal, AgentEvent::ControlRead(ReadOutcome::Data(d))) => {
            if d.len() == 0 {
                (AgentState::Terminated, AgentAction::Exit)
            } else {
                (AgentState::Relaying, AgentAction::OpenTargetAndReplay(d))
            }
        },
        (AgentState::AwaitingSignal, AgentEvent::ControlRead(ReadOutcome::Closed)) => (
            AgentState::Terminated,
            AgentAction::Exit,
        ),
        (AgentState::AwaitingSignal, AgentEvent::ControlRead(ReadOutcome::Failed)) => (
            AgentState::Terminated,
            AgentAction::Exit,
        ),
        (AgentState::Relaying, AgentEvent::TunnelDone(Ok(ClosedSocket::First))) => (
            AgentState::Terminated,
            AgentAction::Exit,
        ),
        (AgentState::Relaying, AgentEvent::TunnelDone(Ok(ClosedSocket::Second))) => (
            AgentState::AwaitingSignal,
            AgentAction::AwaitControl,
        ),
        (AgentState::Relaying, AgentEvent::TunnelDone(Err(_))) => (
            AgentState::AwaitingSignal,
            AgentAction::AwaitControl,
        ),
        (AgentState::Terminated, _) => (AgentState::Terminated, AgentAction::Exit),
        (AgentState::AwaitingSignal, AgentEvent::TunnelDone(_)) => (
            AgentState::AwaitingSignal,
            AgentAction::AwaitControl,
        ),
        (AgentState::Relaying, AgentEvent::ControlRead(_)) => (
            AgentState::Relaying,
            AgentAction::AwaitControl,
        ),
    }
}

/// Termination is final: the agent does not retry a closed control stream;
/// every event after termination leaves it terminated, mirroring the relay
/// ending its session.
pub proof fn lemma_terminated_is_final(e: AgentEvent)
    ensures
        spec_agent_step(AgentState::Terminated, e) == (AgentState::Terminated, AgentAction::Exit),
{
}

/// First-chunk replay: a non-empty chunk read from the control stream while
/// awaiting a signal is handed to the target connection exactly as read —
/// same bytes, same order — before any further relaying, and the agent
/// enters the relaying state.
pub proof fn lemma_first_chunk_replay(d: Vec<u8>)
    requires
        d@.len() > 0,
    ensures
        spec_agent_step(AgentState::AwaitingSignal, AgentEvent::ControlRead(ReadOutcome::Data(d)))
            == (AgentState::Relaying, AgentAction::OpenTargetAndReplay(d)),
{
}

} // verus!
