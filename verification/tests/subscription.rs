use engagement_ledger::service::ServiceError;
use engagement_ledger::subscription::LoopAction::{Apply, Await, Stop};
use engagement_ledger::subscription::LoopState::{Closed, Failed, Idle, Streaming, Subscribed};
use engagement_ledger::subscription::StreamEvent::{EndOfStream, Message, Opened, TransportError};
use engagement_ledger::subscription::{advance, outcome, LoopState, StreamEvent};

fn run(events: &[StreamEvent]) -> LoopState {
    let mut state = LoopState::Idle;
    for event in events {
        state = advance(state, *event).0;
    }
    state
}

#[test]
fn stream_that_ends_closes_the_loop_with_success() {
    let state = run(&[
        StreamEvent::Opened,
        StreamEvent::Message,
        StreamEvent::Message,
        StreamEvent::EndOfStream,
    ]);
    assert_eq!(state, LoopState::Closed);
    assert_eq!(outcome(state), Some(Ok(())));
}

#[test]
fn stream_without_messages_closes_with_success() {
    let state = run(&[StreamEvent::Opened, StreamEvent::EndOfStream]);
    assert_eq!(state, LoopState::Closed);
    assert_eq!(outcome(state), Some(Ok(())));
}

#[test]
fn transport_error_fails_the_loop() {
    let state = run(&[StreamEvent::Opened, StreamEvent::Message, StreamEvent::TransportError]);
    assert_eq!(state, LoopState::Failed);
    assert_eq!(outcome(state), Some(Err(ServiceError::Unavailable)));
    assert_eq!(run(&[StreamEvent::TransportError]), LoopState::Failed);
    assert_eq!(run(&[StreamEvent::Opened, StreamEvent::TransportError]), LoopState::Failed);
}

#[test]
fn running_loop_has_no_outcome() {
    assert_eq!(outcome(LoopState::Idle), None);
    assert_eq!(outcome(LoopState::Subscribed), None);
    assert_eq!(outcome(LoopState::Streaming), None);
}

#[test]
fn every_transition() {
    assert_eq!(advance(Idle, Opened), (Subscribed, Await));
    assert_eq!(advance(Idle, Message), (Failed, Stop));
    assert_eq!(advance(Idle, EndOfStream), (Failed, Stop));
    assert_eq!(advance(Idle, TransportError), (Failed, Stop));
    assert_eq!(advance(Subscribed, Opened), (Failed, Stop));
    assert_eq!(advance(Subscribed, Message), (Streaming, Apply));
    assert_eq!(advance(Subscribed, EndOfStream), (Closed, Stop));
    assert_eq!(advance(Subscribed, TransportError), (Failed, Stop));
    assert_eq!(advance(Streaming, Opened), (Failed, Stop));
    assert_eq!(advance(Streaming, Message), (Streaming, Apply));
    assert_eq!(advance(Streaming, EndOfStream), (Closed, Stop));
    assert_eq!(advance(Streaming, TransportError), (Failed, Stop));
    for event in [Opened, Message, EndOfStream, TransportError] {
        assert_eq!(advance(Closed, event), (Closed, Stop));
        assert_eq!(advance(Failed, event), (Failed, Stop));
    }
}
