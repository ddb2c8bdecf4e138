//! The per-request write relay: buffered bodies, streamed bodies, failures
//! mid-stream, and the independence of concurrent requests.

use synapse_module_bridge::body::{outcome_events, Body, StreamEvent, StreamRelay, WriteAction};

#[test]
fn buffered_body_writes_once_and_completes() {
    let evs = outcome_events(Ok(Body::Buffered(b"Hello, Rust!".to_vec())));
    let mut relay = StreamRelay::new();
    let mut acts: Vec<WriteAction> = Vec::new();
    for ev in evs {
        acts.push(relay.on_event(ev));
    }
    assert_eq!(
        acts,
        vec![
            WriteAction::Write(b"Hello, Rust!".to_vec()),
            WriteAction::Complete,
        ]
    );
}

#[test]
fn failed_handler_signals_error_only() {
    let evs = outcome_events(Err("handler exploded".to_string()));
    let mut relay = StreamRelay::new();
    let mut acts: Vec<WriteAction> = Vec::new();
    for ev in evs {
        acts.push(relay.on_event(ev));
    }
    assert_eq!(
        acts,
        vec![WriteAction::SignalError("handler exploded".to_string())]
    );
}

#[test]
fn streamed_body_is_empty_until_chunks_arrive() {
    let evs = outcome_events(Ok(Body::Streamed));
    assert_eq!(evs, Vec::<StreamEvent>::new());
}

#[test]
fn three_tick_stream_writes_in_order_then_completes() {
    let mut relay = StreamRelay::new();
    let mut acts: Vec<WriteAction> = Vec::new();
    for i in 0..3 {
        let chunk = format!("Tick {} of 3\n", i).into_bytes();
        acts.push(relay.on_event(StreamEvent::Chunk(chunk)));
    }
    acts.push(relay.on_event(StreamEvent::End));
    assert_eq!(
        acts,
        vec![
            WriteAction::Write(b"Tick 0 of 3\n".to_vec()),
            WriteAction::Write(b"Tick 1 of 3\n".to_vec()),
            WriteAction::Write(b"Tick 2 of 3\n".to_vec()),
            WriteAction::Complete,
        ]
    );
}

#[test]
fn failure_after_two_chunks_signals_error_not_completion() {
    let mut relay = StreamRelay::new();
    let mut acts: Vec<WriteAction> = Vec::new();
    acts.push(relay.on_event(StreamEvent::Chunk(b"Tick 0\n".to_vec())));
    acts.push(relay.on_event(StreamEvent::Chunk(b"Tick 1\n".to_vec())));
    acts.push(relay.on_event(StreamEvent::Failed("timer broke".to_string())));
    assert_eq!(
        acts,
        vec![
            WriteAction::Write(b"Tick 0\n".to_vec()),
            WriteAction::Write(b"Tick 1\n".to_vec()),
            WriteAction::SignalError("timer broke".to_string()),
        ]
    );
    assert!(!acts.contains(&WriteAction::Complete));
}

#[test]
fn concurrent_requests_do_not_interleave_bytes() {
    // Two relays serve two simultaneous requests; their events arrive
    // interleaved.  Each request's actions are exactly its solo run.
    let mut first = StreamRelay::new();
    let mut second = StreamRelay::new();
    let mut first_acts: Vec<WriteAction> = Vec::new();
    let mut second_acts: Vec<WriteAction> = Vec::new();

    first_acts.push(first.on_event(StreamEvent::Chunk(b"aa".to_vec())));
    second_acts.push(second.on_event(StreamEvent::Chunk(b"xx".to_vec())));
    first_acts.push(first.on_event(StreamEvent::Chunk(b"bb".to_vec())));
    second_acts.push(second.on_event(StreamEvent::End));
    first_acts.push(first.on_event(StreamEvent::End));

    assert_eq!(
        first_acts,
        vec![
            WriteAction::Write(b"aa".to_vec()),
            WriteAction::Write(b"bb".to_vec()),
            WriteAction::Complete,
        ]
    );
    assert_eq!(
        second_acts,
        vec![WriteAction::Write(b"xx".to_vec()), WriteAction::Complete]
    );
}
