//! The merged data, received via WebSocket.

pub mod decimal;
pub mod depth;
pub mod trade;

use vstd::prelude::*;
use vstd::std_specs::convert::FromSpec;
use vstd::std_specs::convert::FromSpecImpl;

use self::depth::Depth;
use self::trade::Trade;

verus! {

/// The kinds of stream a client can subscribe to.
#[derive(Debug, Clone, Copy, PartialEq, Eq, Structural)]
pub enum FeedKind {
    /// The `trade` stream.
    Trade,
    /// The `depth` stream.
    Depth,
}

/// The merged data, received via WebSocket.
#[derive(Debug, Clone, PartialEq)]
pub enum Event {
    /// The trade event from the `trade` stream.
    Trade(Trade),
    /// The depth event from the `depth` stream.
    Depth(Depth),
}

impl Event {
    /// The stream that a given event comes from.
    pub open spec fn spec_kind(&self) -> FeedKind {
        match self {
            Event::Trade(_) => FeedKind::Trade,
            Event::Depth(_) => FeedKind::Depth,
        }
    }

    /// The stream that this event comes from.
    #[verifier::when_used_as_spec(spec_kind)]
    pub fn kind(&self) -> (kind: FeedKind)
        ensures
            kind == self.spec_kind(),
    {
        match self {
            Event::Trade(_) => FeedKind::Trade,
            Event::Depth(_) => FeedKind::Depth,
        }
    }
}

/// A decoded stream payload: a record that exactly one kind of event wraps.
pub trait Payload: Sized {
    /// The stream that the payloads of this type come from.
    spec fn feed() -> FeedKind;

    /// The event that wraps a payload, unchanged.
    spec fn wrap(self) -> Event;

    /// The event that wraps a payload is of the stream of the payload.
    proof fn lemma_wrapped_by_own_kind(self)
        ensures
            self.wrap().kind() == Self::feed(),
    ;

    /// Wraps the payload into the event of its stream.
    fn into_event(self) -> (event: Event)
        ensures
            event == self.wrap(),
    ;
}

impl Payload for Trade {
    open spec fn feed() -> FeedKind {
        FeedKind::Trade
    }

    open spec fn wrap(self) -> Event {
        Event::Trade(self)
    }

    proof fn lemma_wrapped_by_own_kind(self) {
    }

    fn into_event(self) -> (event: Event) {
        Event::from(self)
    }
}

impl Payload for Depth {
    open spec fn feed() -> FeedKind {
        FeedKind::Depth
    }

    open spec fn wrap(self) -> Event {
        Event::Depth(self)
    }

    proof fn lemma_wrapped_by_own_kind(self) {
    }

    fn into_event(self) -> (event: Event) {
        Event::from(self)
    }
}

impl From<Trade> for Event {
    fn from(inner: Trade) -> (event: Self) {
        Self::Trade(inner)
    }
}

impl FromSpecImpl<Trade> for Event {
    open spec fn obeys_from_spec() -> bool {
        true
    }

    open spec fn from_spec(inner: Trade) -> Self {
        Event::Trade(inner)
    }
}

impl From<Depth> for Event {
    fn from(inner: Depth) -> (event: Self) {
        Self::Depth(inner)
    }
}

impl FromSpecImpl<Depth> for Event {
    open spec fn obeys_from_spec() -> bool {
        true
    }

    open spec fn from_spec(inner: Depth) -> Self {
        Event::Depth(inner)
    }
}

/// Converting a payload wraps it, unchanged, into the event of its own
/// stream: a trade becomes a trade event and a depth update a depth event,
/// whichever way the conversion is asked for.
pub proof fn lemma_conversion_keeps_kind_and_payload(trade: Trade, depth: Depth)
    ensures
        <Event as FromSpec<Trade>>::obeys_from_spec(),
        <Event as FromSpec<Depth>>::obeys_from_spec(),
        <Event as FromSpec<Trade>>::from_spec(trade) == Event::Trade(trade),
        <Event as FromSpec<Depth>>::from_spec(depth) == Event::Depth(depth),
        <Event as FromSpec<Trade>>::from_spec(trade).kind() == FeedKind::Trade,
        <Event as FromSpec<Depth>>::from_spec(depth).kind() == FeedKind::Depth,
        trade.wrap() == <Event as FromSpec<Trade>>::from_spec(trade),
        depth.wrap() == <Event as FromSpec<Depth>>::from_spec(depth),
        Trade::feed() == FeedKind::Trade,
        Depth::feed() == FeedKind::Depth,
{
}

} // verus!
