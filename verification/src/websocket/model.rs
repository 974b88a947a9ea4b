//! The mathematical model of a client: the streams it is to open, and how far
//! it has come in opening them.

use vstd::prelude::*;

use crate::websocket::address::depth_address;
use crate::websocket::address::trade_address;
use crate::websocket::event::FeedKind;

verus! {

/// The mathematical value of a subscription: one stream to open.
pub ghost struct SubscriptionView {
    /// The kind of the stream.
    pub kind: FeedKind,
    /// The address the stream is served at.
    pub address: Seq<char>,
}

/// The streams to open for a symbol, in the order of opening: the `trade`
/// stream always, and the `depth` stream where an update period is given.
pub open spec fn subscriptions(symbol: Seq<char>, depth_period: Option<u64>) -> Seq<
    SubscriptionView,
> {
    let trade = SubscriptionView { kind: FeedKind::Trade, address: trade_address(symbol) };
    match depth_period {
        Some(period) => seq![
            trade,
            SubscriptionView { kind: FeedKind::Depth, address: depth_address(symbol, period) },
        ],
        None => seq![trade],
    }
}

/// The mathematical value of a client.
pub ghost struct ClientView {
    /// The streams to open, in the order of opening.
    pub plan: Seq<SubscriptionView>,
    /// How many of them have been opened, each with its worker started.
    pub opened: nat,
    /// Whether a stream could not be opened.
    pub failed: bool,
}

impl ClientView {
    /// A client that is to open the given streams and has opened none yet.
    pub open spec fn start(plan: Seq<SubscriptionView>) -> ClientView {
        ClientView { plan, opened: 0, failed: false }
    }

    /// No more streams are opened than there are to open.
    pub open spec fn wf(self) -> bool {
        self.opened <= self.plan.len()
    }

    /// The stream to open next, if there is one left and none has failed.
    pub open spec fn pending(self) -> Option<SubscriptionView> {
        if !self.failed && self.opened < self.plan.len() {
            Some(self.plan[self.opened as int])
        } else {
            None
        }
    }

    /// Whether every stream is open: only then may the consumer be given the
    /// receiving end of the channel.
    pub open spec fn ready(self) -> bool {
        !self.failed && self.opened == self.plan.len()
    }

    /// The client after it is told how opening the pending stream went.
    /// A failure is final. A success counts where a stream was pending.
    pub open spec fn step(self, opening: Result<(), ::websocket::WebSocketError>) -> ClientView {
        match opening {
            Ok(_) => if self.pending() is Some {
                ClientView { opened: self.opened + 1, ..self }
            } else {
                self
            },
            Err(_) => ClientView { failed: true, ..self },
        }
    }

    /// The client after it is told how a series of openings went, one after
    /// the other.
    pub open spec fn after(self, openings: Seq<Result<(), ::websocket::WebSocketError>>) -> ClientView
        decreases openings.len(),
    {
        if openings.len() == 0 {
            self
        } else {
            self.after(openings.drop_last()).step(openings.last())
        }
    }
}

} // verus!
