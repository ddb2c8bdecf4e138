//! Body abstraction and the per-request write relay.
//!
//! A response body is either a single buffered byte sequence or a lazy,
//! finite, forward-only sequence of chunks.  The relay is the verified core
//! of the host-facing adaptor: it receives the handler-side events of one
//! request (a chunk became available, the stream ended, production failed)
//! and decides the host-side action (write the chunk, signal completion,
//! signal the error).  One relay serves one request; the unverified shell
//! performs the actual host writes.

use vstd::prelude::*;

verus! {

/// A response body: a fully materialized byte sequence, or a stream whose
/// chunks are produced incrementally and arrive as [`StreamEvent`]s.
#[derive(Debug, PartialEq, Eq)]
pub enum Body {
    Buffered(Vec<u8>),
    Streamed,
}

/// The abstract value of a [`Body`].
pub enum BodyV {
    Buffered(Seq<u8>),
    Streamed,
}

impl View for Body {
    type V = BodyV;

    open spec fn view(&self) -> BodyV {
        match self {
            Body::Buffered(b) => BodyV::Buffered(b@),
            Body::Streamed => BodyV::Streamed,
        }
    }
}

/// A handler-side event of one request: the next chunk of the body became
/// available, the chunk sequence ended, or chunk production failed.
#[derive(Debug, PartialEq, Eq)]
pub enum StreamEvent {
    Chunk(Vec<u8>),
    End,
    Failed(String),
}

/// The abstract value of a [`StreamEvent`].
pub enum StreamEventV {
    Chunk(Seq<u8>),
    End,
    Failed(Seq<char>),
}

impl View for StreamEvent {
    type V = StreamEventV;

    open spec fn view(&self) -> StreamEventV {
        match self {
            StreamEvent::Chunk(b) => StreamEventV::Chunk(b@),
            StreamEvent::End => StreamEventV::End,
            StreamEvent::Failed(m) => StreamEventV::Failed(m@),
        }
    }
}

impl DeepView for StreamEvent {
    type V = StreamEventV;

    open spec fn deep_view(&self) -> StreamEventV {
        self.view()
    }
}

/// A host-side action of one request: write bytes, signal that the response
/// is complete, or signal that it failed.
#[derive(Debug, PartialEq, Eq)]
pub enum WriteAction {
    Write(Vec<u8>),
    Complete,
    SignalError(String),
}

/// The abstract value of a [`WriteAction`].
pub enum WriteActionV {
    Write(Seq<u8>),
    Complete,
    SignalError(Seq<char>),
}

impl View for WriteAction {
    type V = WriteActionV;

    open spec fn view(&self) -> WriteActionV {
        match self {
            WriteAction::Write(b) => WriteActionV::Write(b@),
            WriteAction::Complete => WriteActionV::Complete,
            WriteAction::SignalError(m) => WriteActionV::SignalError(m@),
        }
    }
}

/// One step of the relay: the next state (still accepting events?) and the
/// actions emitted for this event.  A closed relay emits nothing.
pub open spec fn relay_step(active: bool, ev: StreamEventV) -> (bool, Seq<WriteActionV>) {
    if !active {
        (false, Seq::empty())
    } else {
        match ev {
            StreamEventV::Chunk(b) => (true, seq![WriteActionV::Write(b)]),
            StreamEventV::End => (false, seq![WriteActionV::Complete]),
            StreamEventV::Failed(m) => (false, seq![WriteActionV::SignalError(m)]),
        }
    }
}

/// The actions a relay in state `active` emits over the event sequence
/// `evs`, in order.
pub open spec fn relay_run_from(active: bool, evs: Seq<StreamEventV>) -> Seq<WriteActionV>
    decreases evs.len(),
{
    if evs.len() == 0 {
        Seq::empty()
    } else {
        relay_step(active, evs[0]).1 + relay_run_from(
            relay_step(active, evs[0]).0,
            evs.drop_first(),
        )
    }
}

/// The actions a fresh relay emits over the event sequence `evs`.
pub open spec fn relay_run(evs: Seq<StreamEventV>) -> Seq<WriteActionV> {
    relay_run_from(true, evs)
}

/// The write relay of one request.  Fresh relays accept events; an `End` or
/// `Failed` event closes the relay.
pub struct StreamRelay {
    pub active: bool,
}

impl StreamRelay {
    /// A fresh relay for one request.
    pub fn new() -> (r: StreamRelay)
        ensures
            r.active,
    {
        StreamRelay { active: true }
    }

    /// Decides the host-side action for one handler-side event: a chunk is
    /// written and the relay stays open; the end of the stream completes the
    /// response; a failure signals the error.  Exactly one action per event.
    pub fn on_event(&mut self, ev: StreamEvent) -> (act: WriteAction)
        requires
            old(self).active,
        ensures
            final(self).active == relay_step(old(self).active, ev@).0,
            seq![act@] == relay_step(old(self).active, ev@).1,
    {
        match ev {
            StreamEvent::Chunk(b) => WriteAction::Write(b),
            StreamEvent::End => {
                self.active = false;
                WriteAction::Complete
            },
            StreamEvent::Failed(m) => {
                self.active = false;
                WriteAction::SignalError(m)
            },
        }
    }
}

/// The handler-side events that a completed handler outcome feeds to the
/// relay: a buffered body is one chunk followed by the end of the stream; a
/// streamed body contributes its events as its chunks are produced; a failed
/// handler contributes the failure alone.
pub open spec fn initial_events(outcome: Result<BodyV, Seq<char>>) -> Seq<StreamEventV> {
    match outcome {
        Ok(BodyV::Buffered(b)) => seq![StreamEventV::Chunk(b), StreamEventV::End],
        Ok(BodyV::Streamed) => Seq::empty(),
        Err(m) => seq![StreamEventV::Failed(m)],
    }
}

/// Turns a handler outcome into the events the relay is fed first, so that
/// one relay serves buffered bodies, streamed bodies, and handler failures
/// alike.
pub fn outcome_events(outcome: Result<Body, String>) -> (evs: Vec<StreamEvent>)
    ensures
        evs.deep_view() == initial_events(
            match outcome {
                Ok(b) => Ok(b@),
                Err(m) => Err(m@),
            },
        ),
{
    let mut evs: Vec<StreamEvent> = Vec::new();
    match outcome {
        Ok(Body::Buffered(b)) => {
            evs.push(StreamEvent::Chunk(b));
            evs.push(StreamEvent::End);
        },
        Ok(Body::Streamed) => {},
        Err(m) => {
            evs.push(StreamEvent::Failed(m));
        },
    }
    proof {
        assert(evs.deep_view() =~= initial_events(
            match outcome {
                Ok(b) => Ok(b@),
                Err(m) => Err(m@),
            },
        ));
    }
    evs
}

/// The relay events of a stream that produces exactly these chunks, in order.
pub open spec fn chunk_events(chunks: Seq<Seq<u8>>) -> Seq<StreamEventV> {
    Seq::new(chunks.len(), |i: int| StreamEventV::Chunk(chunks[i]))
}

/// One write per chunk, in order.
pub open spec fn chunk_writes(chunks: Seq<Seq<u8>>) -> Seq<WriteActionV> {
    Seq::new(chunks.len(), |i: int| WriteActionV::Write(chunks[i]))
}

/// A buffered body is served as exactly one complete write followed by the
/// completion signal, and nothing else.
pub proof fn lemma_buffered_body_single_write(b: Seq<u8>)
    ensures
        relay_run(initial_events(Ok(BodyV::Buffered(b)))) == seq![
            WriteActionV::Write(b),
            WriteActionV::Complete,
        ],
{
    reveal_with_fuel(relay_run_from, 3);
    let evs = initial_events(Ok(BodyV::Buffered(b)));
    assert(evs.drop_first() =~= seq![StreamEventV::End]);
    assert(seq![StreamEventV::End].drop_first() =~= Seq::<StreamEventV>::empty());
    assert(relay_run(evs) =~= seq![WriteActionV::Write(b), WriteActionV::Complete]);
}

/// A handler failure before any chunk is served as exactly one error signal,
/// and nothing else: no write and no completion signal.
pub proof fn lemma_failed_handler_single_error(m: Seq<char>)
    ensures
        relay_run(initial_events(Err(m))) == seq![WriteActionV::SignalError(m)],
{
    reveal_with_fuel(relay_run_from, 2);
    let evs = initial_events(Err::<BodyV, Seq<char>>(m));
    assert(evs.drop_first() =~= Seq::<StreamEventV>::empty());
    assert(relay_run(evs) =~= seq![WriteActionV::SignalError(m)]);
}

/// A stream that produces `N` chunks and then ends is served as exactly `N`
/// writes, one per chunk and in production order, followed by a single
/// completion signal.
pub proof fn lemma_streamed_body_writes_all(chunks: Seq<Seq<u8>>)
    ensures
        relay_run(chunk_events(chunks).push(StreamEventV::End)) == chunk_writes(chunks).push(
            WriteActionV::Complete,
        ),
    decreases chunks.len(),
{
    reveal_with_fuel(relay_run_from, 2);
    let evs = chunk_events(chunks).push(StreamEventV::End);
    if chunks.len() == 0 {
        assert(evs =~= seq![StreamEventV::End]);
        assert(evs.drop_first() =~= Seq::<StreamEventV>::empty());
        assert(relay_run(evs) =~= chunk_writes(chunks).push(WriteActionV::Complete));
    } else {
        lemma_streamed_body_writes_all(chunks.drop_first());
        assert(evs[0] == StreamEventV::Chunk(chunks[0]));
        assert(evs.drop_first() =~= chunk_events(chunks.drop_first()).push(StreamEventV::End));
        assert(relay_run(evs) =~= chunk_writes(chunks).push(WriteActionV::Complete));
    }
}

/// A stream that fails after producing `k` chunks is served as exactly `k`
/// writes followed by a single error signal — never a completion signal, so
/// a truncated stream is never passed off as a success.
pub proof fn lemma_streamed_body_failure(chunks: Seq<Seq<u8>>, m: Seq<char>)
    ensures
        relay_run(chunk_events(chunks).push(StreamEventV::Failed(m))) == chunk_writes(
            chunks,
        ).push(WriteActionV::SignalError(m)),
        forall|k: int|
            0 <= k < relay_run(chunk_events(chunks).push(StreamEventV::Failed(m))).len()
                ==> relay_run(chunk_events(chunks).push(StreamEventV::Failed(m)))[k]
                != WriteActionV::Complete,
    decreases chunks.len(),
{
    reveal_with_fuel(relay_run_from, 2);
    let evs = chunk_events(chunks).push(StreamEventV::Failed(m));
    let out = chunk_writes(chunks).push(WriteActionV::SignalError(m));
    if chunks.len() == 0 {
        assert(evs =~= seq![StreamEventV::Failed(m)]);
        assert(evs.drop_first() =~= Seq::<StreamEventV>::empty());
        assert(relay_run(evs) =~= out);
    } else {
        lemma_streamed_body_failure(chunks.drop_first(), m);
        assert(evs[0] == StreamEventV::Chunk(chunks[0]));
        assert(evs.drop_first() =~= chunk_events(chunks.drop_first()).push(
            StreamEventV::Failed(m),
        ));
        assert(relay_run(evs) =~= out);
    }
    assert forall|k: int| 0 <= k < out.len() implies out[k] != WriteActionV::Complete by {
        if k < chunks.len() {
            assert(out[k] == WriteActionV::Write(chunks[k]));
        } else {
            assert(out[k] == WriteActionV::SignalError(m));
        }
    }
}


/// An interleaved transcript of two concurrent requests: each event is
/// tagged with the request it belongs to (`true` for the first request,
/// `false` for the second).
pub open spec fn events_of(t: Seq<(bool, StreamEventV)>, tag: bool) -> Seq<StreamEventV>
    decreases t.len(),
{
    if t.len() == 0 {
        Seq::empty()
    } else {
        (if t[0].0 == tag {
            seq![t[0].1]
        } else {
            Seq::empty()
        }) + events_of(t.drop_first(), tag)
    }
}

/// The actions of one request, picked out of an interleaved tagged action
/// sequence.
pub open spec fn actions_of(o: Seq<(bool, WriteActionV)>, tag: bool) -> Seq<WriteActionV>
    decreases o.len(),
{
    if o.len() == 0 {
        Seq::empty()
    } else {
        (if o[0].0 == tag {
            seq![o[0].1]
        } else {
            Seq::empty()
        }) + actions_of(o.drop_first(), tag)
    }
}

/// Two relays, one per concurrent request, driven by an interleaved
/// transcript: each event goes to the relay it is tagged with, and the
/// emitted actions carry the same tag.
pub open spec fn run_two_from(
    first: bool,
    second: bool,
    t: Seq<(bool, StreamEventV)>,
) -> Seq<(bool, WriteActionV)>
    decreases t.len(),
{
    if t.len() == 0 {
        Seq::empty()
    } else if t[0].0 {
        Seq::new(relay_step(first, t[0].1).1.len(), |i: int| (true, relay_step(first, t[0].1).1[i]))
            + run_two_from(relay_step(first, t[0].1).0, second, t.drop_first())
    } else {
        Seq::new(
            relay_step(second, t[0].1).1.len(),
            |i: int| (false, relay_step(second, t[0].1).1[i]),
        ) + run_two_from(first, relay_step(second, t[0].1).0, t.drop_first())
    }
}

/// A body is forward-only and not restartable: once the relay has completed
/// or failed the response, it emits nothing, whatever events still arrive.
pub proof fn lemma_closed_relay_emits_nothing(evs: Seq<StreamEventV>)
    ensures
        relay_run_from(false, evs) == Seq::<WriteActionV>::empty(),
    decreases evs.len(),
{
    if evs.len() > 0 {
        lemma_closed_relay_emits_nothing(evs.drop_first());
        assert(relay_run_from(false, evs) =~= Seq::<WriteActionV>::empty());
    }
}

/// Concurrent requests are independent: however the transcript of two
/// requests is interleaved, each request's actions are exactly the actions
/// of its own events run alone — no write of one request appears in the
/// other's response.
pub proof fn lemma_interleaved_requests_independent(
    first: bool,
    second: bool,
    t: Seq<(bool, StreamEventV)>,
)
    ensures
        actions_of(run_two_from(first, second, t), true) == relay_run_from(
            first,
            events_of(t, true),
        ),
        actions_of(run_two_from(first, second, t), false) == relay_run_from(
            second,
            events_of(t, false),
        ),
    decreases t.len(),
{
    if t.len() == 0 {
        assert(events_of(t, true) =~= Seq::<StreamEventV>::empty());
        assert(events_of(t, false) =~= Seq::<StreamEventV>::empty());
        assert(actions_of(run_two_from(first, second, t), true) =~= Seq::<
            WriteActionV,
        >::empty());
        assert(actions_of(run_two_from(first, second, t), false) =~= Seq::<
            WriteActionV,
        >::empty());
    } else {
        let rest = t.drop_first();
        let ev = t[0].1;
        let tag = t[0].0;
        let state = if tag {
            first
        } else {
            second
        };
        let out = relay_step(state, ev).1;
        let state2 = relay_step(state, ev).0;
        let first2 = if tag {
            state2
        } else {
            first
        };
        let second2 = if tag {
            second
        } else {
            state2
        };
        let tagged = Seq::new(out.len(), |i: int| (tag, out[i]));
        let tail = run_two_from(first2, second2, rest);
        lemma_interleaved_requests_independent(first2, second2, rest);
        assert(run_two_from(first, second, t) == tagged + tail);
        // The events of the tagged request gain `ev` in front; the other
        // request's events are unchanged.
        assert(events_of(t, tag) == seq![ev] + events_of(rest, tag));
        assert(events_of(t, !tag) =~= events_of(rest, !tag));
        // The solo run of the tagged request takes one step on `ev`.
        lemma_relay_run_from_cons(state, ev, events_of(rest, tag));
        if state {
            // The step emitted exactly one action, tagged with this request.
            assert(out.len() == 1);
            assert(tagged =~= seq![(tag, out[0])]);
            assert((seq![(tag, out[0])] + tail)[0] == (tag, out[0]));
            assert((seq![(tag, out[0])] + tail).drop_first() =~= tail);
            assert(actions_of(tagged + tail, tag) == seq![out[0]] + actions_of(tail, tag));
            assert(seq![out[0]] =~= out);
            assert(actions_of(tagged + tail, !tag) == actions_of(tail, !tag));
        } else {
            // A closed relay emits nothing.
            assert(out.len() == 0);
            assert(tagged + tail =~= tail);
        }
    }
}

/// Running a relay over a non-empty event sequence takes one step on the
/// first event and runs on from the successor state.
proof fn lemma_relay_run_from_cons(state: bool, ev: StreamEventV, rest: Seq<StreamEventV>)
    ensures
        relay_run_from(state, seq![ev] + rest) == relay_step(state, ev).1 + relay_run_from(
            relay_step(state, ev).0,
            rest,
        ),
{
    assert((seq![ev] + rest)[0] == ev);
    assert((seq![ev] + rest).drop_first() =~= rest);
    assert((seq![ev] + rest).len() > 0);
}

} // verus!
