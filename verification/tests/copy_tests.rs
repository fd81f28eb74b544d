use piggyback::copy::{
    copy_run, copy_step, read_outcome, ClosedSocket, CopyAction, CopyEvent, CopyStatus,
    ReadOutcome,
};

fn data_a(bytes: &[u8]) -> CopyEvent {
    CopyEvent::FromA(ReadOutcome::Data(bytes.to_vec()))
}

fn data_b(bytes: &[u8]) -> CopyEvent {
    CopyEvent::FromB(ReadOutcome::Data(bytes.to_vec()))
}

#[test]
fn step_forwards_data_a_to_b() {
    let action = copy_step(data_a(b"hello"));
    assert_eq!(action, CopyAction::ForwardToB(b"hello".to_vec()));
}

#[test]
fn step_forwards_data_b_to_a() {
    let action = copy_step(data_b(b"world"));
    assert_eq!(action, CopyAction::ForwardToA(b"world".to_vec()));
}

#[test]
fn step_reports_first_close() {
    let action = copy_step(CopyEvent::FromA(ReadOutcome::Closed));
    assert_eq!(action, CopyAction::Finish(ClosedSocket::First));
}

#[test]
fn step_reports_second_close() {
    let action = copy_step(CopyEvent::FromB(ReadOutcome::Closed));
    assert_eq!(action, CopyAction::Finish(ClosedSocket::Second));
}

#[test]
fn step_aborts_on_read_error() {
    assert_eq!(copy_step(CopyEvent::FromA(ReadOutcome::Failed)), CopyAction::Abort);
    assert_eq!(copy_step(CopyEvent::FromB(ReadOutcome::Failed)), CopyAction::Abort);
}

#[test]
fn read_outcome_zero_is_closed() {
    let buf = vec![7u8; 1024];
    assert_eq!(read_outcome(&buf, 0), ReadOutcome::Closed);
}

#[test]
fn read_outcome_takes_exact_prefix() {
    let mut buf = vec![0u8; 1024];
    buf[..4].copy_from_slice(b"abcd");
    assert_eq!(read_outcome(&buf, 4), ReadOutcome::Data(b"abcd".to_vec()));
}

#[test]
fn read_outcome_of_empty_buffer() {
    let buf: Vec<u8> = Vec::new();
    assert_eq!(read_outcome(&buf, 0), ReadOutcome::Closed);
}

#[test]
fn run_byte_fidelity_chunked() {
    // Arbitrary chunking of one direction, with traffic interleaved on the
    // other: each side receives exactly the other's bytes, in order.
    let events = vec![
        data_a(b"GET "),
        data_b(b"HTTP/1.1 "),
        data_a(b"/ HT"),
        data_a(b"TP/1.1\r\n"),
        data_b(b"200 OK\r\n"),
        CopyEvent::FromA(ReadOutcome::Closed),
    ];
    let trace = copy_run(&events);
    assert_eq!(trace.to_b, b"GET / HTTP/1.1\r\n".to_vec());
    assert_eq!(trace.to_a, b"HTTP/1.1 200 OK\r\n".to_vec());
    assert_eq!(trace.status, CopyStatus::Done(ClosedSocket::First));
}

#[test]
fn run_symmetry_mirrored_events() {
    let events = vec![
        data_a(b"ping"),
        data_b(b"pong"),
        CopyEvent::FromB(ReadOutcome::Closed),
    ];
    let mirrored = vec![
        data_b(b"ping"),
        data_a(b"pong"),
        CopyEvent::FromA(ReadOutcome::Closed),
    ];
    let trace = copy_run(&events);
    let mirror_trace = copy_run(&mirrored);
    assert_eq!(mirror_trace.to_a, trace.to_b);
    assert_eq!(mirror_trace.to_b, trace.to_a);
    assert_eq!(trace.status, CopyStatus::Done(ClosedSocket::Second));
    assert_eq!(mirror_trace.status, CopyStatus::Done(ClosedSocket::First));
}

#[test]
fn run_close_attribution_both_orders() {
    let a_first = vec![data_b(b"x"), CopyEvent::FromA(ReadOutcome::Closed)];
    assert_eq!(copy_run(&a_first).status, CopyStatus::Done(ClosedSocket::First));
    let b_first = vec![data_a(b"x"), CopyEvent::FromB(ReadOutcome::Closed)];
    assert_eq!(copy_run(&b_first).status, CopyStatus::Done(ClosedSocket::Second));
}

#[test]
fn run_without_terminal_is_running() {
    let events = vec![data_a(b"abc"), data_b(b"def")];
    let trace = copy_run(&events);
    assert_eq!(trace.status, CopyStatus::Running);
    assert_eq!(trace.to_b, b"abc".to_vec());
    assert_eq!(trace.to_a, b"def".to_vec());
}

#[test]
fn run_stops_at_read_error() {
    let events = vec![
        data_a(b"kept"),
        CopyEvent::FromB(ReadOutcome::Failed),
        data_a(b"dropped"),
    ];
    let trace = copy_run(&events);
    assert_eq!(trace.status, CopyStatus::Failed);
    assert_eq!(trace.to_b, b"kept".to_vec());
    assert_eq!(trace.to_a, Vec::<u8>::new());
}

#[test]
fn run_stops_at_first_terminal_event() {
    let events = vec![
        CopyEvent::FromA(ReadOutcome::Closed),
        data_a(b"late"),
        CopyEvent::FromB(ReadOutcome::Closed),
    ];
    let trace = copy_run(&events);
    assert_eq!(trace.status, CopyStatus::Done(ClosedSocket::First));
    assert_eq!(trace.to_b, Vec::<u8>::new());
}

#[test]
fn run_of_no_events() {
    let trace = copy_run(&Vec::new());
    assert_eq!(trace.status, CopyStatus::Running);
    assert_eq!(trace.to_a, Vec::<u8>::new());
    assert_eq!(trace.to_b, Vec::<u8>::new());
}
