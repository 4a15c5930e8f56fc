use vstd::prelude::*;

use crate::counter::CompletionCounter;

verus! {

/// Where a streamed execution stands.
#[derive(Clone, Copy, Debug, PartialEq, Eq, Structural)]
pub enum StreamPhase {
    /// Waiting to learn whether the process started.
    Starting,
    /// Forwarding standard output line by line.
    Reading,
    /// Standard output closed; waiting for the exit status.
    Waiting,
    /// The terminal event has gone out; the stream is over.
    Closed,
}

/// What the process side reports to the stream.
#[derive(Clone, Debug)]
pub enum StreamInput {
    Spawned,
    SpawnFailed(String),
    Line(String),
    OutputClosed,
    Exited(Option<i32>),
    WaitFailed(String),
}

/// One event sent to the caller.
#[derive(Clone, Debug)]
pub enum StreamEvent {
    /// A line of the process's standard output.
    Line(String),
    /// Terminal: the process exited, with its exit code when it had one.
    Done(Option<i32>),
    /// Terminal: waiting for the exit status failed.
    Error(String),
    /// The process could not be started; nothing else follows.
    SpawnError(String),
}

/// One transition: next phase, event to emit, and whether a completion is counted.
pub open spec fn spec_next(phase: StreamPhase, input: StreamInput) -> (
    StreamPhase,
    Option<StreamEvent>,
    bool,
) {
    match (phase, input) {
        (StreamPhase::Starting, StreamInput::Spawned) => (StreamPhase::Reading, None, false),
        (StreamPhase::Starting, StreamInput::SpawnFailed(m)) => (
            StreamPhase::Closed,
            Some(StreamEvent::SpawnError(m)),
            false,
        ),
        (StreamPhase::Reading, StreamInput::Line(l)) => (
            StreamPhase::Reading,
            Some(StreamEvent::Line(l)),
            false,
        ),
        (StreamPhase::Reading, StreamInput::OutputClosed) => (StreamPhase::Waiting, None, false),
        (StreamPhase::Reading, StreamInput::Exited(c)) | (
            StreamPhase::Waiting,
            StreamInput::Exited(c),
        ) => (StreamPhase::Closed, Some(StreamEvent::Done(c)), true),
        (StreamPhase::Reading, StreamInput::WaitFailed(m)) | (
            StreamPhase::Waiting,
            StreamInput::WaitFailed(m),
        ) => (StreamPhase::Closed, Some(StreamEvent::Error(m)), true),
        _ => (phase, None, false),
    }
}

pub open spec fn opt_seq(e: Option<StreamEvent>) -> Seq<StreamEvent> {
    match e {
        Some(x) => seq![x],
        None => seq![],
    }
}

/// Phase, events and counted completions after feeding a sequence of inputs.
pub open spec fn spec_run(phase: StreamPhase, inputs: Seq<StreamInput>) -> (
    StreamPhase,
    Seq<StreamEvent>,
    nat,
)
    decreases inputs.len(),
{
    if inputs.len() == 0 {
        (phase, seq![], 0)
    } else {
        let (p1, e, bump) = spec_next(phase, inputs[0]);
        let (p2, evs, n) = spec_run(p1, inputs.drop_first());
        (p2, opt_seq(e) + evs, n + if bump { 1nat } else { 0nat })
    }
}

pub open spec fn line_inputs(lines: Seq<String>) -> Seq<StreamInput> {
    lines.map_values(|l: String| StreamInput::Line(l))
}

pub open spec fn line_events(lines: Seq<String>) -> Seq<StreamEvent> {
    lines.map_values(|l: String| StreamEvent::Line(l))
}

/// The decisions of one streamed execution.
pub struct StreamRun {
    phase: StreamPhase,
}

impl StreamRun {
    pub closed spec fn spec_phase(&self) -> StreamPhase {
        self.phase
    }

    pub fn new() -> (r: StreamRun)
        ensures
            r.spec_phase() == StreamPhase::Starting,
    {
        StreamRun { phase: StreamPhase::Starting }
    }

    pub fn phase(&self) -> (r: StreamPhase)
        ensures
            r == self.spec_phase(),
    {
        self.phase
    }

    /// Takes one report from the process side; returns the event to send, if any.
    pub fn step(&mut self, counter: &mut CompletionCounter, input: StreamInput) -> (r: Option<
        StreamEvent,
    >)
        requires
            old(counter).value() < u64::MAX,
        ensures
            final(self).spec_phase() == spec_next(old(self).spec_phase(), input).0,
            r == spec_next(old(self).spec_phase(), input).1,
            final(counter).value() == old(counter).value() + if spec_next(
                old(self).spec_phase(),
                input,
            ).2 {
                1nat
            } else {
                0nat
            },
    {
        let phase = self.phase;
        match (phase, input) {
            (StreamPhase::Starting, StreamInput::Spawned) => {
                self.phase = StreamPhase::Reading;
                None
            },
            (StreamPhase::Starting, StreamInput::SpawnFailed(m)) => {
                self.phase = StreamPhase::Closed;
                Some(StreamEvent::SpawnError(m))
            },
            (StreamPhase::Reading, StreamInput::Line(l)) => Some(StreamEvent::Line(l)),
            (StreamPhase::Reading, StreamInput::OutputClosed) => {
                self.phase = StreamPhase::Waiting;
                None
            },
            (StreamPhase::Reading, StreamInput::Exited(c))
            | (StreamPhase::Waiting, StreamInput::Exited(c)) => {
                self.phase = StreamPhase::Closed;
                counter.record_completion();
                Some(StreamEvent::Done(c))
            },
            (StreamPhase::Reading, StreamInput::WaitFailed(m))
            | (StreamPhase::Waiting, StreamInput::WaitFailed(m)) => {
                self.phase = StreamPhase::Closed;
                counter.record_completion();
                Some(StreamEvent::Error(m))
            },
            _ => None,
        }
    }
}

proof fn lemma_run_concat(phase: StreamPhase, a: Seq<StreamInput>, b: Seq<StreamInput>)
    ensures
        spec_run(phase, a + b) == ({
            let (p1, e1, n1) = spec_run(phase, a);
            let (p2, e2, n2) = spec_run(p1, b);
            (p2, e1 + e2, n1 + n2)
        }),
    decreases a.len(),
{
    if a.len() == 0 {
        assert(a + b =~= b);
        let (p2, e2, n2) = spec_run(phase, b);
        assert(seq![] + e2 =~= e2);
    } else {
        assert((a + b).drop_first() =~= a.drop_first() + b);
        assert((a + b)[0] == a[0]);
        let (q, e, bump) = spec_next(phase, a[0]);
        lemma_run_concat(q, a.drop_first(), b);
        let (p1, e1, n1) = spec_run(q, a.drop_first());
        let (p2, e2, n2) = spec_run(p1, b);
        assert(opt_seq(e) + (e1 + e2) =~= (opt_seq(e) + e1) + e2);
    }
}

proof fn lemma_run_lines(lines: Seq<String>)
    ensures
        spec_run(StreamPhase::Reading, line_inputs(lines)) == (
            StreamPhase::Reading,
            line_events(lines),
            0nat,
        ),
    decreases lines.len(),
{
    if lines.len() > 0 {
        let rest = lines.drop_first();
        assert(line_inputs(lines).drop_first() =~= line_inputs(rest));
        lemma_run_lines(rest);
        assert(line_events(lines) =~= seq![StreamEvent::Line(lines[0])] + line_events(rest));
    } else {
        assert(line_events(lines) =~= seq![]);
    }
}

proof fn lemma_closed_stays_silent(inputs: Seq<StreamInput>)
    ensures
        spec_run(StreamPhase::Closed, inputs) == (StreamPhase::Closed, Seq::<StreamEvent>::empty(), 0nat),
    decreases inputs.len(),
{
    if inputs.len() > 0 {
        lemma_closed_stays_silent(inputs.drop_first());
        assert(opt_seq(None) + Seq::<StreamEvent>::empty() =~= Seq::<StreamEvent>::empty());
    }
}

proof fn lemma_run_one(phase: StreamPhase, x: StreamInput)
    ensures
        spec_run(phase, seq![x]) == ({
            let (p1, e, bump) = spec_next(phase, x);
            (p1, opt_seq(e), if bump { 1nat } else { 0nat })
        }),
{
    assert(seq![x].drop_first() =~= Seq::<StreamInput>::empty());
    let (p1, e, bump) = spec_next(phase, x);
    assert(spec_run(p1, Seq::<StreamInput>::empty()) == (p1, Seq::<StreamEvent>::empty(), 0nat));
    assert(opt_seq(e) + Seq::<StreamEvent>::empty() =~= opt_seq(e));
}

/// A process that starts, prints its lines, closes its output and exits yields one event per
/// line in the order written, then exactly one terminal `Done`, and is counted once.
pub proof fn lemma_stream_lines_then_done(lines: Seq<String>, code: Option<i32>)
    ensures
        spec_run(
            StreamPhase::Starting,
            seq![StreamInput::Spawned] + line_inputs(lines) + seq![
                StreamInput::OutputClosed,
                StreamInput::Exited(code),
            ],
        ) == (StreamPhase::Closed, line_events(lines) + seq![StreamEvent::Done(code)], 1nat),
{
    let head = seq![StreamInput::Spawned];
    let closed = seq![StreamInput::OutputClosed];
    let exited = seq![StreamInput::Exited(code)];
    assert(closed + exited =~= seq![StreamInput::OutputClosed, StreamInput::Exited(code)]);
    lemma_run_concat(StreamPhase::Starting, head + line_inputs(lines), closed + exited);
    lemma_run_concat(StreamPhase::Starting, head, line_inputs(lines));
    lemma_run_concat(StreamPhase::Reading, closed, exited);
    lemma_run_one(StreamPhase::Starting, StreamInput::Spawned);
    lemma_run_one(StreamPhase::Reading, StreamInput::OutputClosed);
    lemma_run_one(StreamPhase::Waiting, StreamInput::Exited(code));
    lemma_run_lines(lines);
    assert(opt_seq(None) =~= Seq::<StreamEvent>::empty());
    assert(Seq::<StreamEvent>::empty() + line_events(lines) =~= line_events(lines));
    assert(Seq::<StreamEvent>::empty() + seq![StreamEvent::Done(code)] =~= seq![
        StreamEvent::Done(code),
    ]);
}

/// A process that fails to start yields exactly one spawn error, no terminal `Done`, and is not
/// counted, whatever is reported afterwards.
pub proof fn lemma_stream_spawn_failure(msg: String, later: Seq<StreamInput>)
    ensures
        spec_run(StreamPhase::Starting, seq![StreamInput::SpawnFailed(msg)] + later) == (
            StreamPhase::Closed,
            seq![StreamEvent::SpawnError(msg)],
            0nat,
        ),
{
    let head = seq![StreamInput::SpawnFailed(msg)];
    lemma_run_concat(StreamPhase::Starting, head, later);
    lemma_run_one(StreamPhase::Starting, StreamInput::SpawnFailed(msg));
    lemma_closed_stays_silent(later);
    assert(seq![StreamEvent::SpawnError(msg)] + Seq::<StreamEvent>::empty() =~= seq![
        StreamEvent::SpawnError(msg),
    ]);
}

} // verus!
