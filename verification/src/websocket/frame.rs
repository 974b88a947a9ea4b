//! The frames of a WebSocket connection, as they arrive.

use vstd::prelude::*;
use vstd::utf8::encode_utf8;

use ::websocket::ws::dataframe::DataFrame;
use ::websocket::OwnedMessage;

verus! {

/// Why a connection is closed.
#[derive(Debug, Clone, PartialEq, Eq)]
pub struct CloseData {
    /// The status code of the closing.
    pub status_code: u16,
    /// The reason given for the closing.
    pub reason: String,
}

/// One frame received from a connection.
#[derive(Debug, Clone, PartialEq, Eq)]
pub enum Frame {
    /// UTF-8 text data.
    Text(String),
    /// Binary data.
    Binary(Vec<u8>),
    /// The closing of the connection, with or without data.
    Close(Option<CloseData>),
    /// A liveness probe, to be answered with a pong.
    Ping(Vec<u8>),
    /// The answer to a liveness probe.
    Pong(Vec<u8>),
}

/// The mathematical value of a [`CloseData`].
pub ghost struct CloseDataView {
    /// The status code of the closing.
    pub status_code: u16,
    /// The reason given for the closing.
    pub reason: Seq<char>,
}

/// The mathematical value of a [`Frame`].
pub ghost enum FrameView {
    /// UTF-8 text data.
    Text(Seq<char>),
    /// Binary data.
    Binary(Seq<u8>),
    /// The closing of the connection, with or without data.
    Close(Option<CloseDataView>),
    /// A liveness probe, to be answered with a pong.
    Ping(Seq<u8>),
    /// The answer to a liveness probe.
    Pong(Seq<u8>),
}

impl FrameView {
    /// Whether the frame is a liveness probe.
    pub open spec fn is_ping(self) -> bool {
        self is Ping
    }

    /// The bytes that the frame carries: the UTF-8 encoding of a text, the
    /// data of a binary, ping or pong frame, and for a closing with data the
    /// status code, high byte first, followed by the UTF-8 encoding of the
    /// reason.
    pub open spec fn payload(self) -> Seq<u8> {
        match self {
            FrameView::Text(text) => encode_utf8(text),
            FrameView::Binary(data) => data,
            FrameView::Close(Some(close)) => seq![
                (close.status_code / 256) as u8,
                (close.status_code % 256) as u8,
            ] + encode_utf8(close.reason),
            FrameView::Close(None) => Seq::empty(),
            FrameView::Ping(data) => data,
            FrameView::Pong(data) => data,
        }
    }
}

impl View for CloseData {
    type V = CloseDataView;

    open spec fn view(&self) -> CloseDataView {
        CloseDataView { status_code: self.status_code, reason: self.reason@ }
    }
}

impl View for Frame {
    type V = FrameView;

    open spec fn view(&self) -> FrameView {
        match self {
            Frame::Text(text) => FrameView::Text(text@),
            Frame::Binary(data) => FrameView::Binary(data@),
            Frame::Close(Some(close)) => FrameView::Close(Some(close@)),
            Frame::Close(None) => FrameView::Close(None),
            Frame::Ping(data) => FrameView::Ping(data@),
            Frame::Pong(data) => FrameView::Pong(data@),
        }
    }
}

impl Frame {
    /// Whether the frame is a liveness probe.
    pub fn is_ping(&self) -> (ping: bool)
        ensures
            ping == self@.is_ping(),
    {
        match self {
            Frame::Ping(_) => true,
            _ => false,
        }
    }

    /// The bytes that the frame carries.
    pub fn take_payload(self) -> (payload: Vec<u8>)
        ensures
            payload@ == self@.payload(),
    {
        message_payload(self)
    }
}

/// `DataFrame::take_payload` of the `websocket` crate, on the `OwnedMessage`
/// that the frame stands for. It gives the bytes of a text as they are, which
/// are its UTF-8 encoding; the data of a binary, ping or pong message as it
/// is; for a closing with data the status code as two bytes, the high one
/// first, followed by the bytes of the reason; for one without, no byte.
#[verifier::external_body]
fn message_payload(frame: Frame) -> (payload: Vec<u8>)
    ensures
        payload@ == frame@.payload(),
{
    let message = match frame {
        Frame::Text(text) => OwnedMessage::Text(text),
        Frame::Binary(data) => OwnedMessage::Binary(data),
        Frame::Close(Some(close)) => OwnedMessage::Close(
            Some(::websocket::CloseData::new(close.status_code, close.reason)),
        ),
        Frame::Close(None) => OwnedMessage::Close(None),
        Frame::Ping(data) => OwnedMessage::Ping(data),
        Frame::Pong(data) => OwnedMessage::Pong(data),
    };
    message.take_payload()
}

/// The bytes a pong carries: the ASCII text `pong frame`.
pub open spec fn pong_payload() -> Seq<u8> {
    seq![0x70u8, 0x6fu8, 0x6eu8, 0x67u8, 0x20u8, 0x66u8, 0x72u8, 0x61u8, 0x6du8, 0x65u8]
}

/// The bytes to answer a liveness probe with.
pub fn pong() -> (payload: Vec<u8>)
    ensures
        payload@ == pong_payload(),
{
    vec![0x70u8, 0x6fu8, 0x6eu8, 0x67u8, 0x20u8, 0x66u8, 0x72u8, 0x61u8, 0x6du8, 0x65u8]
}

} // verus!
