//! The mathematical model of a stream worker: its states, what it is told,
//! what it answers, and the transition between them.

use vstd::prelude::*;

use crate::error::StreamErrorView;
use crate::websocket::event::Event;
use crate::websocket::event::Payload;
use crate::websocket::frame::pong_payload;
use crate::websocket::frame::FrameView;

verus! {

/// What a worker is waiting for.
pub ghost enum StateView {
    /// The next frame of the connection.
    Receiving,
    /// The outcome of sending a pong.
    Replying,
    /// The outcome of decoding the given bytes.
    Decoding(Seq<u8>),
    /// The outcome of handing an event to the consumer.
    Delivering,
    /// Nothing: the worker has ended.
    Terminated,
}

/// What a worker is told: the outcome of the action it asked for.
pub ghost enum OutcomeView<P> {
    /// A frame arrived, or receiving failed.
    Received(Result<FrameView, ::websocket::WebSocketError>),
    /// The pong went out, or sending it failed.
    Replied(Result<(), ::websocket::WebSocketError>),
    /// The bytes were decoded into a payload, or were refused.
    Decoded(Result<P, ::serde_json::Error>),
    /// Whether the consumer was still there to take the event.
    Delivered(bool),
}

/// What a worker asks for next.
pub ghost enum ActionView {
    /// Wait for the next frame.
    Receive,
    /// Send a pong that carries the given bytes.
    Pong(Seq<u8>),
    /// Decode the bytes that the worker holds.
    Decode,
    /// Hand the event to the consumer.
    Deliver(Event),
    /// End the task and release the connection.
    Stop,
}

/// The answer of a worker to an outcome.
pub ghost struct ReactionView {
    /// What to do next.
    pub action: ActionView,
    /// What went wrong, if anything did.
    pub error: Option<StreamErrorView>,
}

impl StateView {
    /// Whether a worker in this state is waiting for the given outcome.
    pub open spec fn awaits<P>(self, outcome: OutcomeView<P>) -> bool {
        match (self, outcome) {
            (StateView::Receiving, OutcomeView::Received(_)) => true,
            (StateView::Replying, OutcomeView::Replied(_)) => true,
            (StateView::Decoding(_), OutcomeView::Decoded(_)) => true,
            (StateView::Delivering, OutcomeView::Delivered(_)) => true,
            _ => false,
        }
    }

    /// The bytes that a worker in this state holds for decoding.
    pub open spec fn raw(self) -> Seq<u8> {
        match self {
            StateView::Decoding(raw) => raw,
            _ => Seq::empty(),
        }
    }

    /// The state that follows, and the answer given, when a worker in this
    /// state is told an outcome that it waits for.
    pub open spec fn react<P: Payload>(self, outcome: OutcomeView<P>) -> (StateView, ReactionView)
        recommends
            self.awaits(outcome),
    {
        match outcome {
            OutcomeView::Received(Ok(frame)) => if frame.is_ping() {
                (
                    StateView::Replying,
                    ReactionView {
                        action: ActionView::Pong(pong_payload()),
                        error: None,
                    },
                )
            } else if frame.payload().len() == 0 {
                (StateView::Receiving, ReactionView { action: ActionView::Receive, error: None })
            } else {
                (
                    StateView::Decoding(frame.payload()),
                    ReactionView { action: ActionView::Decode, error: None },
                )
            },
            OutcomeView::Received(Err(cause)) => (
                StateView::Terminated,
                ReactionView {
                    action: ActionView::Stop,
                    error: Some(StreamErrorView::Receive(cause)),
                },
            ),
            OutcomeView::Replied(Ok(_)) => (
                StateView::Receiving,
                ReactionView { action: ActionView::Receive, error: None },
            ),
            OutcomeView::Replied(Err(cause)) => (
                StateView::Receiving,
                ReactionView {
                    action: ActionView::Receive,
                    error: Some(StreamErrorView::LivenessReply(cause)),
                },
            ),
            OutcomeView::Decoded(Ok(payload)) => (
                StateView::Delivering,
                ReactionView { action: ActionView::Deliver(payload.wrap()), error: None },
            ),
            OutcomeView::Decoded(Err(cause)) => (
                StateView::Receiving,
                ReactionView {
                    action: ActionView::Receive,
                    error: Some(StreamErrorView::Decode { cause, raw: self.raw() }),
                },
            ),
            OutcomeView::Delivered(taken) => if taken {
                (StateView::Receiving, ReactionView { action: ActionView::Receive, error: None })
            } else {
                (
                    StateView::Terminated,
                    ReactionView {
                        action: ActionView::Stop,
                        error: Some(StreamErrorView::Delivery),
                    },
                )
            },
        }
    }
}

/// The run of a worker that starts in `state` and is told `outcomes` one after
/// the other: the state it ends in, and its answers in order. An outcome that
/// the worker does not wait for at its turn is passed over.
pub open spec fn run<P: Payload>(state: StateView, outcomes: Seq<OutcomeView<P>>) -> (
    StateView,
    Seq<ReactionView>,
)
    decreases outcomes.len(),
{
    if outcomes.len() == 0 {
        (state, Seq::empty())
    } else {
        let (before, reactions) = run(state, outcomes.drop_last());
        if before.awaits(outcomes.last()) {
            let (after, reaction) = before.react(outcomes.last());
            (after, reactions.push(reaction))
        } else {
            (before, reactions)
        }
    }
}

/// Whether a worker that starts in `state` waits for each of `outcomes` at its
/// turn, as it does when each outcome is that of the action asked for last.
pub open spec fn orderly<P: Payload>(state: StateView, outcomes: Seq<OutcomeView<P>>) -> bool
    decreases outcomes.len(),
{
    outcomes.len() == 0 || {
        &&& orderly(state, outcomes.drop_last())
        &&& run(state, outcomes.drop_last()).0.awaits(outcomes.last())
    }
}

/// The events that the given answers hand to the consumer, in order.
pub open spec fn delivered(reactions: Seq<ReactionView>) -> Seq<Event>
    decreases reactions.len(),
{
    if reactions.len() == 0 {
        Seq::empty()
    } else {
        match reactions.last().action {
            ActionView::Deliver(event) => delivered(reactions.drop_last()).push(event),
            _ => delivered(reactions.drop_last()),
        }
    }
}

/// The number of pongs that the given answers ask to send.
pub open spec fn pongs(reactions: Seq<ReactionView>) -> nat
    decreases reactions.len(),
{
    if reactions.len() == 0 {
        0
    } else {
        match reactions.last().action {
            ActionView::Pong(_) => pongs(reactions.drop_last()) + 1,
            _ => pongs(reactions.drop_last()),
        }
    }
}

/// The events that wrap the payloads decoded among the given outcomes, in order.
pub open spec fn decoded<P: Payload>(outcomes: Seq<OutcomeView<P>>) -> Seq<Event>
    decreases outcomes.len(),
{
    if outcomes.len() == 0 {
        Seq::empty()
    } else {
        match outcomes.last() {
            OutcomeView::Decoded(Ok(payload)) => decoded(outcomes.drop_last()).push(
                payload.wrap(),
            ),
            _ => decoded(outcomes.drop_last()),
        }
    }
}

/// The number of liveness probes received among the given outcomes.
pub open spec fn pings<P>(outcomes: Seq<OutcomeView<P>>) -> nat
    decreases outcomes.len(),
{
    if outcomes.len() == 0 {
        0
    } else {
        match outcomes.last() {
            OutcomeView::Received(Ok(frame)) if frame.is_ping() => pings(outcomes.drop_last()) + 1,
            _ => pings(outcomes.drop_last()),
        }
    }
}

} // verus!
