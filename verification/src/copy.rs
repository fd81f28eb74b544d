//! The bidirectional copy engine: relays bytes between two duplex streams,
//! A and B, until one side reaches end-of-stream or a read fails.
//!
//! The engine itself is a step function from a read event to the action the
//! caller must perform before waiting again. A whole run is modelled by
//! `copy_run`, which folds a sequence of read events into the bytes written
//! to each side and the way the run ended.

use vstd::prelude::*;

verus! {

/// Size of the scratch buffer each direction reads into; the same on both
/// sides, and the engine's whole memory bound per active tunnel.
pub const COPY_BUFFER_BYTES: usize = 1024;

/// Which of a tunnel's two endpoints observed end-of-stream first. `First`
/// is the stream passed as A (for the relay and the agent, the control
/// stream); `Second` is the stream passed as B.
#[derive(Clone, Copy, Debug, PartialEq, Eq, Structural)]
pub enum ClosedSocket {
    First,
    Second,
}

/// Stands for an I/O error reported by a stream; the surrounding process maps
/// the concrete error onto this before handing it to the state machines.
#[derive(Clone, Copy, Debug, PartialEq, Eq, Structural)]
pub struct CopyError;

/// Outcome of one read on a stream: a chunk of bytes, end-of-stream, or an
/// I/O error.
#[derive(Clone, Debug, PartialEq, Eq)]
pub enum ReadOutcome {
    Data(Vec<u8>),
    Closed,
    Failed,
}

/// One wakeup of the copy engine: a read completed on side A or on side B.
#[derive(Clone, Debug, PartialEq, Eq)]
pub enum CopyEvent {
    FromA(ReadOutcome),
    FromB(ReadOutcome),
}

/// What the caller must do after handing the engine an event: forward the
/// chunk to the opposite side before reading again, finish cleanly reporting
/// which side closed, or abort with the read error.
#[derive(Clone, Debug, PartialEq, Eq)]
pub enum CopyAction {
    ForwardToB(Vec<u8>),
    ForwardToA(Vec<u8>),
    Finish(ClosedSocket),
    Abort,
}

/// The engine's whole response to one event. Data read from one side is
/// forwarded to the other, unaltered; end-of-stream finishes the run and
/// names the side that closed; a read error aborts it.
pub open spec fn spec_copy_step(e: CopyEvent) -> CopyAction {
    match e {
        CopyEvent::FromA(ReadOutcome::Data(d)) => CopyAction::ForwardToB(d),
        CopyEvent::FromA(ReadOutcome::Closed) => CopyAction::Finish(ClosedSocket::First),
        CopyEvent::FromA(ReadOutcome::Failed) => CopyAction::Abort,
        CopyEvent::FromB(ReadOutcome::Data(d)) => CopyAction::ForwardToA(d),
        CopyEvent::FromB(ReadOutcome::Closed) => CopyAction::Finish(ClosedSocket::Second),
        CopyEvent::FromB(ReadOutcome::Failed) => CopyAction::Abort,
    }
}

/// Decide the engine's next action from one read event.
pub fn copy_step(e: CopyEvent) -> (a: CopyAction)
    ensures
        a == spec_copy_step(e),
{
    match e {
        CopyEvent::FromA(ReadOutcome::Data(d)) => CopyAction::ForwardToB(d),
        CopyEvent::FromA(ReadOutcome::Closed) => CopyAction::Finish(ClosedSocket::First),
        CopyEvent::FromA(ReadOutcome::Failed) => CopyAction::Abort,
        CopyEvent::FromB(ReadOutcome::Data(d)) => CopyAction::ForwardToA(d),
        CopyEvent::FromB(ReadOutcome::Closed) => CopyAction::Finish(ClosedSocket::Second),
        CopyEvent::FromB(ReadOutcome::Failed) => CopyAction::Abort,
    }
}

/// Classify a completed read of `n` bytes into `buf`: zero bytes is
/// end-of-stream, anything else is exactly the first `n` bytes of the buffer.
pub fn read_outcome(buf: &Vec<u8>, n: usize) -> (o: ReadOutcome)
    requires
        n <= buf.len(),
    ensures
        n == 0 ==> o == ReadOutcome::Closed,
        n > 0 ==> (o matches ReadOutcome::Data(d) && d@ == buf@.take(n as int)),
{
    if n == 0 {
        ReadOutcome::Closed
    } else {
        let mut chunk: Vec<u8> = Vec::new();
        let mut i: usize = 0;
        while i < n
            invariant
                i <= n,
                n <= buf.len(),
                chunk@ == buf@.take(i as int),
            decreases n - i,
        {
            chunk.push(buf[i]);
            proof {
                assert(chunk@ =~= buf@.take(i + 1));
            }
            i = i + 1;
        }
        ReadOutcome::Data(chunk)
    }
}

/// How a run of the engine ended: still running (no terminal event yet),
/// finished cleanly with the side that closed first, or aborted on a read
/// error.
#[derive(Clone, Copy, Debug, PartialEq, Eq, Structural)]
pub enum CopyStatus {
    Running,
    Done(ClosedSocket),
    Failed,
}

/// An event that ends the run: end-of-stream or a read error on either side.
pub open spec fn spec_is_terminal(e: CopyEvent) -> bool {
    match e {
        CopyEvent::FromA(ReadOutcome::Data(_)) => false,
        CopyEvent::FromB(ReadOutcome::Data(_)) => false,
        _ => true,
    }
}

/// The status a run reports when `e` is the first terminal event it sees.
pub open spec fn spec_terminal_status(e: CopyEvent) -> CopyStatus {
    match e {
        CopyEvent::FromA(ReadOutcome::Closed) => CopyStatus::Done(ClosedSocket::First),
        CopyEvent::FromB(ReadOutcome::Closed) => CopyStatus::Done(ClosedSocket::Second),
        _ => CopyStatus::Failed,
    }
}

/// The bytes a run writes to side B: the chunks read from A before the first
/// terminal event, concatenated in order.
pub open spec fn spec_to_b(events: Seq<CopyEvent>) -> Seq<u8>
    decreases events.len(),
{
    if events.len() == 0 {
        Seq::empty()
    } else if spec_is_terminal(events.first()) {
        Seq::empty()
    } else {
        (match events.first() {
            CopyEvent::FromA(ReadOutcome::Data(d)) => d@,
            _ => Seq::empty(),
        }) + spec_to_b(events.drop_first())
    }
}

/// The bytes a run writes to side A: the chunks read from B before the first
/// terminal event, concatenated in order.
pub open spec fn spec_to_a(events: Seq<CopyEvent>) -> Seq<u8>
    decreases events.len(),
{
    if events.len() == 0 {
        Seq::empty()
    } else if spec_is_terminal(events.first()) {
        Seq::empty()
    } else {
        (match events.first() {
            CopyEvent::FromB(ReadOutcome::Data(d)) => d@,
            _ => Seq::empty(),
        }) + spec_to_a(events.drop_first())
    }
}

/// How a run over these events ends: the status of the first terminal event,
/// or `Running` if there is none.
pub open spec fn spec_status(events: Seq<CopyEvent>) -> CopyStatus
    decreases events.len(),
{
    if events.len() == 0 {
        CopyStatus::Running
    } else if spec_is_terminal(events.first()) {
        spec_terminal_status(events.first())
    } else {
        spec_status(events.drop_first())
    }
}

/// What one whole run of the engine produced: the bytes written to each side
/// and the way the run ended.
#[derive(Clone, Debug, PartialEq, Eq)]
pub struct CopyTrace {
    pub to_a: Vec<u8>,
    pub to_b: Vec<u8>,
    pub status: CopyStatus,
}

/// Append every byte of `src` to `dst`, in order.
pub fn push_all(dst: &mut Vec<u8>, src: &Vec<u8>)
    ensures
        final(dst)@ == old(dst)@ + src@,
{
    let mut i: usize = 0;
    while i < src.len()
        invariant
            i <= src.len(),
            dst@ == old(dst)@ + src@.take(i as int),
        decreases src.len() - i,
    {
        dst.push(src[i]);
        proof {
            assert(old(dst)@ + src@.take(i + 1) =~= (old(dst)@ + src@.take(i as int)).push(
                src@[i as int],
            ));
        }
        i = i + 1;
    }
    proof {
        assert(src@.take(src.len() as int) =~= src@);
    }
}

/// Run the copy engine over a whole sequence of read events, stopping at the
/// first terminal event: each chunk is forwarded to the opposite side before
/// the next event is taken, so the trace holds the forwarded bytes in the
/// order they were read.
pub fn copy_run(events: &Vec<CopyEvent>) -> (t: CopyTrace)
    ensures
        t.to_a@ == spec_to_a(events@),
        t.to_b@ == spec_to_b(events@),
        t.status == spec_status(events@),
{
    let mut to_a: Vec<u8> = Vec::new();
    let mut to_b: Vec<u8> = Vec::new();
    let mut i: usize = 0;
    proof {
        assert(events@.skip(0) =~= events@);
        assert(Seq::<u8>::empty() + spec_to_a(events@) =~= spec_to_a(events@));
        assert(Seq::<u8>::empty() + spec_to_b(events@) =~= spec_to_b(events@));
    }
    while i < events.len()
        invariant
            i <= events.len(),
            spec_to_a(events@) == to_a@ + spec_to_a(events@.skip(i as int)),
            spec_to_b(events@) == to_b@ + spec_to_b(events@.skip(i as int)),
            spec_status(events@) == spec_status(events@.skip(i as int)),
        decreases events.len() - i,
    {
        proof {
            assert(events@.skip(i as int).first() == events@[i as int]);
            assert(events@.skip(i as int).drop_first() =~= events@.skip(i as int + 1));
        }
        match &events[i] {
            CopyEvent::FromA(ReadOutcome::Data(d)) => {
                proof {
                    assert(to_b@ + (d@ + spec_to_b(events@.skip(i as int + 1))) =~= (to_b@ + d@)
                        + spec_to_b(events@.skip(i as int + 1)));
                    assert(to_a@ + spec_to_a(events@.skip(i as int + 1)) =~= to_a@ + (
                    Seq::<u8>::empty() + spec_to_a(events@.skip(i as int + 1))));
                }
                push_all(&mut to_b, d);
            },
            CopyEvent::FromB(ReadOutcome::Data(d)) => {
                proof {
                    assert(to_a@ + (d@ + spec_to_a(events@.skip(i as int + 1))) =~= (to_a@ + d@)
                        + spec_to_a(events@.skip(i as int + 1)));
                    assert(to_b@ + spec_to_b(events@.skip(i as int + 1)) =~= to_b@ + (
                    Seq::<u8>::empty() + spec_to_b(events@.skip(i as int + 1))));
                }
                push_all(&mut to_a, d);
            },
            CopyEvent::FromA(ReadOutcome::Closed) => {
                proof {
                    assert(to_a@ + Seq::<u8>::empty() =~= to_a@);
                    assert(to_b@ + Seq::<u8>::empty() =~= to_b@);
                }
                return CopyTrace { to_a, to_b, status: CopyStatus::Done(ClosedSocket::First) };
            },
            CopyEvent::FromB(ReadOutcome::Closed) => {
                proof {
                    assert(to_a@ + Seq::<u8>::empty() =~= to_a@);
                    assert(to_b@ + Seq::<u8>::empty() =~= to_b@);
                }
                return CopyTrace { to_a, to_b, status: CopyStatus::Done(ClosedSocket::Second) };
            },
            CopyEvent::FromA(ReadOutcome::Failed) | CopyEvent::FromB(ReadOutcome::Failed) => {
                proof {
                    assert(to_a@ + Seq::<u8>::empty() =~= to_a@);
                    assert(to_b@ + Seq::<u8>::empty() =~= to_b@);
                }
                return CopyTrace { to_a, to_b, status: CopyStatus::Failed };
            },
        }
        i = i + 1;
    }
    proof {
        assert(events@.skip(events@.len() as int) =~= Seq::<CopyEvent>::empty());
        assert(to_a@ + Seq::<u8>::empty() =~= to_a@);
        assert(to_b@ + Seq::<u8>::empty() =~= to_b@);
    }
    CopyTrace { to_a, to_b, status: CopyStatus::Running }
}

/// The chunks read from side A before the first terminal event, in order.
pub open spec fn spec_a_chunks(events: Seq<CopyEvent>) -> Seq<Seq<u8>>
    decreases events.len(),
{
    if events.len() == 0 {
        Seq::empty()
    } else if spec_is_terminal(events.first()) {
        Seq::empty()
    } else {
        match events.first() {
            CopyEvent::FromA(ReadOutcome::Data(d)) => seq![d@] + spec_a_chunks(
                events.drop_first(),
            ),
            _ => spec_a_chunks(events.drop_first()),
        }
    }
}

/// The chunks read from side B before the first terminal event, in order.
pub open spec fn spec_b_chunks(events: Seq<CopyEvent>) -> Seq<Seq<u8>>
    decreases events.len(),
{
    if events.len() == 0 {
        Seq::empty()
    } else if spec_is_terminal(events.first()) {
        Seq::empty()
    } else {
        match events.first() {
            CopyEvent::FromB(ReadOutcome::Data(d)) => seq![d@] + spec_b_chunks(
                events.drop_first(),
            ),
            _ => spec_b_chunks(events.drop_first()),
        }
    }
}

/// Byte fidelity: however the writes into one side were chunked, and however
/// the reads on the two sides interleave, the bytes the engine forwards to
/// the opposite side are exactly the concatenation of those chunks, in
/// order, unaltered.
pub proof fn lemma_byte_fidelity(events: Seq<CopyEvent>)
    ensures
        spec_to_b(events) == spec_a_chunks(events).flatten(),
        spec_to_a(events) == spec_b_chunks(events).flatten(),
    decreases events.len(),
{
    if events.len() == 0 || spec_is_terminal(events.first()) {
    } else {
        lemma_byte_fidelity(events.drop_first());
        match events.first() {
            CopyEvent::FromA(ReadOutcome::Data(d)) => {
                let chunks = spec_a_chunks(events);
                assert(chunks.drop_first() =~= spec_a_chunks(events.drop_first()));
                assert(chunks.flatten() == d@ + spec_a_chunks(events.drop_first()).flatten());
            },
            CopyEvent::FromB(ReadOutcome::Data(d)) => {
                let chunks = spec_b_chunks(events);
                assert(chunks.drop_first() =~= spec_b_chunks(events.drop_first()));
                assert(chunks.flatten() == d@ + spec_b_chunks(events.drop_first()).flatten());
            },
            _ => {},
        }
        if !(events.first() matches CopyEvent::FromA(ReadOutcome::Data(_))) {
            assert(spec_a_chunks(events) =~= spec_a_chunks(events.drop_first()));
            assert(Seq::<u8>::empty() + spec_to_b(events.drop_first()) =~= spec_to_b(
                events.drop_first(),
            ));
        }
        if !(events.first() matches CopyEvent::FromB(ReadOutcome::Data(_))) {
            assert(spec_b_chunks(events) =~= spec_b_chunks(events.drop_first()));
            assert(Seq::<u8>::empty() + spec_to_a(events.drop_first()) =~= spec_to_a(
                events.drop_first(),
            ));
        }
    }
}

/// The protocol's piggyback invariant, seen from the relay: when the first
/// thing a run observes is a chunk from the data connection (side B), that
/// whole chunk is the very front of what the run writes to the control
/// stream (side A) — it is forwarded in full before anything else moves.
/// The agent treats the first bytes it reads from the control stream as a
/// new tunnel's payload, so this ordering is what makes the signal
/// unambiguous.
pub proof fn lemma_first_chunk_forwarded_first(events: Seq<CopyEvent>, d: Vec<u8>)
    requires
        events.len() > 0,
        events.first() == CopyEvent::FromB(ReadOutcome::Data(d)),
    ensures
        spec_to_a(events) == d@ + spec_to_a(events.drop_first()),
        spec_to_a(events).take(d@.len() as int) == d@,
{
    assert(spec_to_a(events).take(d@.len() as int) =~= d@);
}

/// The same event with the roles of A and B swapped; the payload is kept.
pub open spec fn spec_mirror_event(e: CopyEvent) -> CopyEvent {
    match e {
        CopyEvent::FromA(o) => CopyEvent::FromB(o),
        CopyEvent::FromB(o) => CopyEvent::FromA(o),
    }
}

/// A whole event sequence with the roles of A and B swapped.
pub open spec fn spec_mirror_events(events: Seq<CopyEvent>) -> Seq<CopyEvent> {
    events.map_values(|e: CopyEvent| spec_mirror_event(e))
}

/// A status with the two close attributions swapped.
pub open spec fn spec_mirror_status(s: CopyStatus) -> CopyStatus {
    match s {
        CopyStatus::Done(ClosedSocket::First) => CopyStatus::Done(ClosedSocket::Second),
        CopyStatus::Done(ClosedSocket::Second) => CopyStatus::Done(ClosedSocket::First),
        _ => s,
    }
}

/// An action with the two forwarding directions and the two close
/// attributions swapped.
pub open spec fn spec_mirror_action(a: CopyAction) -> CopyAction {
    match a {
        CopyAction::ForwardToB(d) => CopyAction::ForwardToA(d),
        CopyAction::ForwardToA(d) => CopyAction::ForwardToB(d),
        CopyAction::Finish(ClosedSocket::First) => CopyAction::Finish(ClosedSocket::Second),
        CopyAction::Finish(ClosedSocket::Second) => CopyAction::Finish(ClosedSocket::First),
        CopyAction::Abort => CopyAction::Abort,
    }
}

/// Symmetry of one step: swapping the roles of A and B in the event swaps the
/// direction of the action and the reported close attribution, and nothing
/// else.
pub proof fn lemma_step_symmetry(e: CopyEvent)
    ensures
        spec_copy_step(spec_mirror_event(e)) == spec_mirror_action(spec_copy_step(e)),
{
}

/// Symmetry of a whole run: swapping the roles of A and B in every event
/// swaps the two output streams and the close attribution, and nothing else.
pub proof fn lemma_run_symmetry(events: Seq<CopyEvent>)
    ensures
        spec_to_a(spec_mirror_events(events)) == spec_to_b(events),
        spec_to_b(spec_mirror_events(events)) == spec_to_a(events),
        spec_status(spec_mirror_events(events)) == spec_mirror_status(spec_status(events)),
    decreases events.len(),
{
    let m = spec_mirror_events(events);
    if events.len() == 0 {
        assert(m =~= Seq::<CopyEvent>::empty());
    } else {
        lemma_run_symmetry(events.drop_first());
        assert(m.first() == spec_mirror_event(events.first()));
        assert(m.drop_first() =~= spec_mirror_events(events.drop_first()));
    }
}

/// Close attribution: if the first terminal event of a run is an
/// end-of-stream on one side, the run reports that very side as the one that
/// closed first; a read error instead makes the run fail.
pub proof fn lemma_close_attribution(events: Seq<CopyEvent>, k: int)
    requires
        0 <= k < events.len(),
        forall|j: int| 0 <= j < k ==> !spec_is_terminal(#[trigger] events[j]),
        spec_is_terminal(events[k]),
    ensures
        spec_status(events) == spec_terminal_status(events[k]),
    decreases k,
{
    if k == 0 {
    } else {
        assert(forall|j: int|
            0 <= j < k - 1 ==> !spec_is_terminal(#[trigger] events.drop_first()[j]));
        lemma_close_attribution(events.drop_first(), k - 1);
    }
}

} // verus!
