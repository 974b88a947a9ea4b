//! The stream worker: the decisions of the task that serves one connection.
//!
//! The worker performs no input or output itself. It asks for one action at a
//! time; whoever drives it performs the action on the connection, the decoder
//! or the channel to the consumer, and tells the worker how that went.
//!
//! A worker exists from the moment its connection is open: connecting is the
//! business of the client. From then on it receives frames. A liveness probe
//! is answered with a pong, and while the pong goes out the worker is
//! `Replying`. A frame that carries bytes is `Decoding`, and the event of a
//! payload decoded from it is `Delivering` until the consumer has taken it.
//! After each of these the worker is `Receiving` again, unless receiving has
//! failed or the consumer is gone: then it is `Terminated`, for good.

pub mod laws;
pub mod model;

use vstd::prelude::*;

use crate::error::StreamError;
use crate::websocket::event::Event;
use crate::websocket::event::Payload;
use crate::websocket::frame::pong;
use crate::websocket::frame::Frame;

use self::model::ActionView;
use self::model::OutcomeView;
use self::model::ReactionView;
use self::model::StateView;

verus! {

/// What a worker is waiting for.
#[derive(Debug, PartialEq, Eq)]
pub enum WorkerState {
    /// The next frame of the connection.
    Receiving,
    /// The outcome of sending a pong.
    Replying,
    /// The outcome of decoding the given bytes.
    Decoding(Vec<u8>),
    /// The outcome of handing an event to the consumer.
    Delivering,
    /// Nothing: the worker has ended.
    Terminated,
}

/// What a worker is told: the outcome of the action it asked for.
#[derive(Debug)]
pub enum Outcome<P> {
    /// A frame arrived, or receiving failed.
    Received(Result<Frame, ::websocket::WebSocketError>),
    /// The pong went out, or sending it failed.
    Replied(Result<(), ::websocket::WebSocketError>),
    /// The bytes were decoded into a payload, or were refused.
    Decoded(Result<P, ::serde_json::Error>),
    /// Whether the consumer was still there to take the event.
    Delivered(bool),
}

/// What a worker asks for next.
#[derive(Debug, PartialEq)]
pub enum Action {
    /// Wait for the next frame.
    Receive,
    /// Send a pong that carries the given bytes.
    Pong(Vec<u8>),
    /// Decode the bytes that the worker holds.
    Decode,
    /// Hand the event to the consumer.
    Deliver(Event),
    /// End the task and release the connection.
    Stop,
}

/// The answer of a worker to an outcome.
#[derive(Debug)]
pub struct Reaction {
    /// What to do next.
    pub action: Action,
    /// What went wrong, if anything did.
    pub error: Option<StreamError>,
}

impl View for WorkerState {
    type V = StateView;

    open spec fn view(&self) -> StateView {
        match self {
            WorkerState::Receiving => StateView::Receiving,
            WorkerState::Replying => StateView::Replying,
            WorkerState::Decoding(raw) => StateView::Decoding(raw@),
            WorkerState::Delivering => StateView::Delivering,
            WorkerState::Terminated => StateView::Terminated,
        }
    }
}

impl<P> View for Outcome<P> {
    type V = OutcomeView<P>;

    open spec fn view(&self) -> OutcomeView<P> {
        match self {
            Outcome::Received(Ok(frame)) => OutcomeView::Received(Ok(frame@)),
            Outcome::Received(Err(cause)) => OutcomeView::Received(Err(*cause)),
            Outcome::Replied(sent) => OutcomeView::Replied(*sent),
            Outcome::Decoded(decoded) => OutcomeView::Decoded(*decoded),
            Outcome::Delivered(taken) => OutcomeView::Delivered(*taken),
        }
    }
}

impl View for Action {
    type V = ActionView;

    open spec fn view(&self) -> ActionView {
        match self {
            Action::Receive => ActionView::Receive,
            Action::Pong(payload) => ActionView::Pong(payload@),
            Action::Decode => ActionView::Decode,
            Action::Deliver(event) => ActionView::Deliver(*event),
            Action::Stop => ActionView::Stop,
        }
    }
}

impl View for Reaction {
    type V = ReactionView;

    open spec fn view(&self) -> ReactionView {
        ReactionView {
            action: self.action@,
            error: match self.error {
                Some(error) => Some(error@),
                None => None,
            },
        }
    }
}

/// The task that serves one connection, as a state machine.
#[derive(Debug)]
pub struct Worker {
    state: WorkerState,
}

impl View for Worker {
    type V = StateView;

    closed spec fn view(&self) -> StateView {
        self.state@
    }
}

impl Worker {
    /// A worker whose connection was just opened: it waits for the first frame.
    pub fn new() -> (worker: Worker)
        ensures
            worker@ == StateView::Receiving,
    {
        Worker { state: WorkerState::Receiving }
    }

    /// What the worker is waiting for.
    pub fn state(&self) -> (state: &WorkerState)
        ensures
            state@ == self@,
    {
        &self.state
    }

    /// The bytes to decode, while the worker waits for them to be decoded.
    pub fn payload(&self) -> (raw: Option<&Vec<u8>>)
        ensures
            match raw {
                Some(bytes) => self@ == StateView::Decoding(bytes@),
                None => !(self@ is Decoding),
            },
    {
        match &self.state {
            WorkerState::Decoding(raw) => Some(raw),
            _ => None,
        }
    }

    /// Tells the worker the outcome of the action it asked for.
    ///
    /// An outcome that the worker waits for moves it to its next state and is
    /// answered with the next action. Any other outcome is handed back and
    /// leaves the worker as it was.
    pub fn step<P: Payload>(&mut self, outcome: Outcome<P>) -> (result: Result<
        Reaction,
        Outcome<P>,
    >)
        ensures
            match result {
                Ok(reaction) => {
                    &&& old(self)@.awaits(outcome@)
                    &&& (final(self)@, reaction@) == old(self)@.react(outcome@)
                },
                Err(refused) => {
                    &&& !old(self)@.awaits(outcome@)
                    &&& refused == outcome
                    &&& final(self)@ == old(self)@
                },
            },
    {
        let mut state = WorkerState::Terminated;
        core::mem::swap(&mut self.state, &mut state);
        match (state, outcome) {
            (WorkerState::Receiving, Outcome::Received(Ok(frame))) => {
                if frame.is_ping() {
                    self.state = WorkerState::Replying;
                    Ok(Reaction { action: Action::Pong(pong()), error: None })
                } else {
                    let raw = frame.take_payload();
                    if raw.len() == 0 {
                        self.state = WorkerState::Receiving;
                        Ok(Reaction { action: Action::Receive, error: None })
                    } else {
                        self.state = WorkerState::Decoding(raw);
                        Ok(Reaction { action: Action::Decode, error: None })
                    }
                }
            },
            (WorkerState::Receiving, Outcome::Received(Err(cause))) => {
                self.state = WorkerState::Terminated;
                Ok(Reaction { action: Action::Stop, error: Some(StreamError::Receive(cause)) })
            },
            (WorkerState::Replying, Outcome::Replied(Ok(_))) => {
                self.state = WorkerState::Receiving;
                Ok(Reaction { action: Action::Receive, error: None })
            },
            (WorkerState::Replying, Outcome::Replied(Err(cause))) => {
                self.state = WorkerState::Receiving;
                Ok(Reaction { action: Action::Receive, error: Some(StreamError::LivenessReply(cause)) })
            },
            (WorkerState::Decoding(_), Outcome::Decoded(Ok(payload))) => {
                self.state = WorkerState::Delivering;
                Ok(Reaction { action: Action::Deliver(payload.into_event()), error: None })
            },
            (WorkerState::Decoding(raw), Outcome::Decoded(Err(cause))) => {
                self.state = WorkerState::Receiving;
                Ok(
                    Reaction {
                        action: Action::Receive,
                        error: Some(StreamError::Decode { cause, raw }),
                    },
                )
            },
            (WorkerState::Delivering, Outcome::Delivered(taken)) => {
                if taken {
                    self.state = WorkerState::Receiving;
                    Ok(Reaction { action: Action::Receive, error: None })
                } else {
                    self.state = WorkerState::Terminated;
                    Ok(Reaction { action: Action::Stop, error: Some(StreamError::Delivery) })
                }
            },
            (state, outcome) => {
                self.state = state;
                Err(outcome)
            },
        }
    }
}

} // verus!
