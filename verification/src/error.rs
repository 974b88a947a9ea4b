//! The errors, and the causes that other crates give for them.

use vstd::prelude::*;

verus! {

/// `websocket::WebSocketError`, the cause that the `websocket` crate gives
/// when a connection cannot be opened, read or written. Nothing is assumed
/// of its value: it is carried to whoever reports it.
#[verifier::external_type_specification]
#[verifier::external_body]
pub struct ExWebSocketError(::websocket::WebSocketError);

/// `serde_json::Error`, the cause that the `serde_json` crate gives when
/// bytes cannot be decoded. Nothing is assumed of its value: it is carried
/// to whoever reports it.
#[verifier::external_type_specification]
#[verifier::external_body]
pub struct ExJsonError(::serde_json::Error);

/// Why a client could not be started.
#[derive(Debug)]
pub enum ConnectError {
    /// A stream could not be opened.
    WebSocket(::websocket::WebSocketError),
}

/// What goes wrong on a stream once its worker runs. Such an error stays with
/// the worker: it is reported, and never handed to the consumer.
#[derive(Debug)]
pub enum StreamError {
    /// Receiving failed: the connection broke or the protocol was violated.
    Receive(::websocket::WebSocketError),
    /// The given bytes could not be decoded into a payload.
    Decode { cause: ::serde_json::Error, raw: Vec<u8> },
    /// The answer to a liveness probe could not be sent.
    LivenessReply(::websocket::WebSocketError),
    /// The consumer was gone when an event was handed over.
    Delivery,
}

/// The mathematical value of a [`StreamError`].
pub ghost enum StreamErrorView {
    /// Receiving failed: the connection broke or the protocol was violated.
    Receive(::websocket::WebSocketError),
    /// The given bytes could not be decoded into a payload.
    Decode { cause: ::serde_json::Error, raw: Seq<u8> },
    /// The answer to a liveness probe could not be sent.
    LivenessReply(::websocket::WebSocketError),
    /// The consumer was gone when an event was handed over.
    Delivery,
}

impl StreamErrorView {
    /// Whether the error ends the worker: a failure to receive or to deliver
    /// does, a failure to decode or to answer a liveness probe does not.
    pub open spec fn is_fatal(self) -> bool {
        self is Receive || self is Delivery
    }
}

impl View for StreamError {
    type V = StreamErrorView;

    open spec fn view(&self) -> StreamErrorView {
        match self {
            StreamError::Receive(cause) => StreamErrorView::Receive(*cause),
            StreamError::Decode { cause, raw } => StreamErrorView::Decode { cause: *cause, raw: raw@ },
            StreamError::LivenessReply(cause) => StreamErrorView::LivenessReply(*cause),
            StreamError::Delivery => StreamErrorView::Delivery,
        }
    }
}

impl StreamError {
    /// Whether the error ends the worker.
    pub fn is_fatal(&self) -> (fatal: bool)
        ensures
            fatal == self@.is_fatal(),
    {
        match self {
            StreamError::Receive(_) => true,
            StreamError::Decode { .. } => false,
            StreamError::LivenessReply(_) => false,
            StreamError::Delivery => true,
        }
    }
}

} // verus!
