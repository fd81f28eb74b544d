use piggyback::agent::{agent_step, AgentAction, AgentEvent, AgentState};
use piggyback::copy::{read_outcome, ClosedSocket, CopyError, ReadOutcome};

#[test]
fn agent_exits_on_control_close() {
    let (state, action) = agent_step(
        AgentState::AwaitingSignal,
        AgentEvent::ControlRead(ReadOutcome::Closed),
    );
    assert_eq!(state, AgentState::Terminated);
    assert_eq!(action, AgentAction::Exit);
}

#[test]
fn agent_exits_on_control_read_error() {
    let (state, action) = agent_step(
        AgentState::AwaitingSignal,
        AgentEvent::ControlRead(ReadOutcome::Failed),
    );
    assert_eq!(state, AgentState::Terminated);
    assert_eq!(action, AgentAction::Exit);
}

#[test]
fn agent_first_chunk_replayed_verbatim() {
    // The first chunk read from the control stream is the new tunnel's
    // signal and its first payload: it must reach the target whole and
    // first.
    let mut buffer = vec![0u8; 1024];
    let payload = b"GET / HTTP/1.1\r\n";
    buffer[..payload.len()].copy_from_slice(payload);
    let outcome = read_outcome(&buffer, payload.len());
    let (state, action) = agent_step(AgentState::AwaitingSignal, AgentEvent::ControlRead(outcome));
    assert_eq!(state, AgentState::Relaying);
    assert_eq!(action, AgentAction::OpenTargetAndReplay(payload.to_vec()));
}

#[test]
fn agent_empty_chunk_treated_as_close() {
    let (state, action) = agent_step(
        AgentState::AwaitingSignal,
        AgentEvent::ControlRead(ReadOutcome::Data(Vec::new())),
    );
    assert_eq!(state, AgentState::Terminated);
    assert_eq!(action, AgentAction::Exit);
}

#[test]
fn agent_exits_when_tunnel_saw_control_close() {
    let (state, action) = agent_step(
        AgentState::Relaying,
        AgentEvent::TunnelDone(Ok(ClosedSocket::First)),
    );
    assert_eq!(state, AgentState::Terminated);
    assert_eq!(action, AgentAction::Exit);
}

#[test]
fn agent_awaits_next_signal_after_target_close() {
    let (state, action) = agent_step(
        AgentState::Relaying,
        AgentEvent::TunnelDone(Ok(ClosedSocket::Second)),
    );
    assert_eq!(state, AgentState::AwaitingSignal);
    assert_eq!(action, AgentAction::AwaitControl);
}

#[test]
fn agent_awaits_next_signal_after_tunnel_error() {
    let (state, action) = agent_step(AgentState::Relaying, AgentEvent::TunnelDone(Err(CopyError)));
    assert_eq!(state, AgentState::AwaitingSignal);
    assert_eq!(action, AgentAction::AwaitControl);
}

#[test]
fn agent_stays_terminated() {
    let (state, action) = agent_step(
        AgentState::Terminated,
        AgentEvent::ControlRead(ReadOutcome::Data(b"late".to_vec())),
    );
    assert_eq!(state, AgentState::Terminated);
    assert_eq!(action, AgentAction::Exit);
}
