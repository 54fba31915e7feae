//! The life of the subscription to the chat source, as a state machine.
//!
//! The caller owns the stream. It reports what the stream did and is told
//! what to do next; the per-message work itself is `UserTable::ingest` or
//! `process_message`.

use vstd::prelude::*;
use crate::service::ServiceError;

verus! {

/// Where the ingest loop stands.
#[derive(Clone, Copy, Debug, PartialEq, Eq, Structural)]
pub enum LoopState {
    /// Nothing has been asked of the chat source yet.
    Idle,
    /// The subscription is open and no message has arrived.
    Subscribed,
    /// At least one message has been applied.
    Streaming,
    /// The stream ended; the loop succeeded.
    Closed,
    /// The stream could not be opened or broke; the loop failed.
    Failed,
}

/// What the chat source did.
#[derive(Clone, Copy, Debug, PartialEq, Eq, Structural)]
pub enum StreamEvent {
    /// The subscription was accepted.
    Opened,
    /// A message arrived.
    Message,
    /// The stream ended in good order.
    EndOfStream,
    /// The transport reported an error.
    TransportError,
}

/// What the loop does next.
#[derive(Clone, Copy, Debug, PartialEq, Eq, Structural)]
pub enum LoopAction {
    /// Wait for the next event.
    Await,
    /// Apply the message that arrived, then wait for the next event.
    Apply,
    /// Leave the loop.
    Stop,
}

/// Whether the loop has ended.
pub open spec fn is_terminal(state: LoopState) -> bool {
    state == LoopState::Closed || state == LoopState::Failed
}

/// The transition of the loop. A message is applied while the subscription
/// is open; the end of the stream closes the loop; a transport error, or an
/// event that the state does not expect, fails it; an ended loop stays as it
/// is.
pub open spec fn next(state: LoopState, event: StreamEvent) -> (LoopState, LoopAction) {
    match (state, event) {
        (LoopState::Closed, _) => (LoopState::Closed, LoopAction::Stop),
        (LoopState::Failed, _) => (LoopState::Failed, LoopAction::Stop),
        (LoopState::Idle, StreamEvent::Opened) => (LoopState::Subscribed, LoopAction::Await),
        (LoopState::Subscribed, StreamEvent::Message) => (LoopState::Streaming, LoopAction::Apply),
        (LoopState::Streaming, StreamEvent::Message) => (LoopState::Streaming, LoopAction::Apply),
        (LoopState::Subscribed, StreamEvent::EndOfStream) => (LoopState::Closed, LoopAction::Stop),
        (LoopState::Streaming, StreamEvent::EndOfStream) => (LoopState::Closed, LoopAction::Stop),
        _ => (LoopState::Failed, LoopAction::Stop),
    }
}

/// The state after a run of events.
pub open spec fn state_after(state: LoopState, events: Seq<StreamEvent>) -> LoopState
    decreases events.len(),
{
    if events.len() == 0 {
        state
    } else {
        next(state_after(state, events.drop_last()), events.last()).0
    }
}

/// The result of the loop in `state`: success once closed, `Unavailable`
/// once failed, and none while it runs.
pub open spec fn result_of(state: LoopState) -> Option<Result<(), ServiceError>> {
    match state {
        LoopState::Closed => Some(Ok(())),
        LoopState::Failed => Some(Err(ServiceError::Unavailable)),
        _ => None,
    }
}

/// Takes one step of the loop.
pub fn advance(state: LoopState, event: StreamEvent) -> (step: (LoopState, LoopAction))
    ensures
        step == next(state, event),
{
    match state {
        LoopState::Closed => (LoopState::Closed, LoopAction::Stop),
        LoopState::Failed => (LoopState::Failed, LoopAction::Stop),
        LoopState::Idle => match event {
            StreamEvent::Opened => (LoopState::Subscribed, LoopAction::Await),
            _ => (LoopState::Failed, LoopAction::Stop),
        },
        LoopState::Subscribed | LoopState::Streaming => match event {
            StreamEvent::Message => (LoopState::Streaming, LoopAction::Apply),
            StreamEvent::EndOfStream => (LoopState::Closed, LoopAction::Stop),
            _ => (LoopState::Failed, LoopAction::Stop),
        },
    }
}

/// The result of the loop, once it has ended.
pub fn outcome(state: LoopState) -> (result: Option<Result<(), ServiceError>>)
    ensures
        result == result_of(state),
{
    match state {
        LoopState::Closed => Some(Ok(())),
        LoopState::Failed => Some(Err(ServiceError::Unavailable)),
        _ => None,
    }
}

/// The loop stops exactly when it has ended, and applies a message only
/// while the subscription is open.
pub proof fn lemma_actions(state: LoopState, event: StreamEvent)
    ensures
        next(state, event).1 == LoopAction::Stop <==> is_terminal(next(state, event).0),
        next(state, event).1 == LoopAction::Apply <==> event == StreamEvent::Message && (state
            == LoopState::Subscribed || state == LoopState::Streaming),
{
}

/// An ended loop stays ended, with the same result, whatever follows.
pub proof fn lemma_ended_stays(state: LoopState, events: Seq<StreamEvent>)
    requires
        is_terminal(state),
    ensures
        state_after(state, events) == state,
    decreases events.len(),
{
    if events.len() > 0 {
        lemma_ended_stays(state, events.drop_last());
    }
}

/// A subscription that is opened, carries any number of messages and then
/// ends in good order closes the loop with success; one that breaks instead
/// fails it with `Unavailable`.
pub proof fn lemma_run(messages: Seq<StreamEvent>, last: StreamEvent)
    requires
        forall|i: int| 0 <= i < messages.len() ==> #[trigger] messages[i] == StreamEvent::Message,
        last == StreamEvent::EndOfStream || last == StreamEvent::TransportError,
    ensures
        result_of(state_after(LoopState::Idle, (seq![StreamEvent::Opened] + messages).push(last)))
            == if last == StreamEvent::EndOfStream {
            Some(Ok::<(), ServiceError>(()))
        } else {
            Some(Err::<(), ServiceError>(ServiceError::Unavailable))
        },
{
    let run = seq![StreamEvent::Opened] + messages;
    lemma_open_run(messages);
    assert(run.push(last).drop_last() =~= run);
}

/// While only messages arrive, an opened subscription stays open.
pub proof fn lemma_open_run(messages: Seq<StreamEvent>)
    requires
        forall|i: int| 0 <= i < messages.len() ==> #[trigger] messages[i] == StreamEvent::Message,
    ensures
        state_after(LoopState::Idle, seq![StreamEvent::Opened] + messages) == if messages.len()
            == 0 {
            LoopState::Subscribed
        } else {
            LoopState::Streaming
        },
    decreases messages.len(),
{
    let run = seq![StreamEvent::Opened] + messages;
    if messages.len() == 0 {
        assert(state_after(LoopState::Idle, run.drop_last()) == LoopState::Idle);
    } else {
        lemma_open_run(messages.drop_last());
        assert(run.drop_last() =~= seq![StreamEvent::Opened] + messages.drop_last());
    }
}

} // verus!
