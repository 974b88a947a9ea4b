//! The Binance WebSocket adapter.
//!
//! Nothing here touches the network. The [`Client`] says which streams to
//! open, at which addresses and in which order, and when the consumer may be
//! served; a [`worker::Worker`] says what to do with each frame of one
//! stream, once that stream is open.

pub mod address;
pub mod event;
pub mod frame;
pub mod laws;
pub mod model;
pub mod worker;

use vstd::prelude::*;

use crate::error::ConnectError;

use self::address::to_depth_address;
use self::address::to_trade_address;
use self::event::FeedKind;
use self::model::subscriptions;
use self::model::ClientView;
use self::model::SubscriptionView;

verus! {

/// One stream to open.
#[derive(Debug, Clone, PartialEq, Eq)]
pub struct Subscription {
    /// The kind of the stream.
    pub kind: FeedKind,
    /// The address the stream is served at.
    pub address: String,
}

impl View for Subscription {
    type V = SubscriptionView;

    open spec fn view(&self) -> SubscriptionView {
        SubscriptionView { kind: self.kind, address: self.address@ }
    }
}

/// The Binance WebSocket client: the opening of the streams of one symbol.
///
/// The streams are opened one after the other, and all of them or none: the
/// consumer is served once every stream is open, and the first stream that
/// cannot be opened ends the client.
#[derive(Debug)]
pub struct Client {
    plan: Vec<Subscription>,
    opened: usize,
    failed: bool,
}

impl View for Client {
    type V = ClientView;

    closed spec fn view(&self) -> ClientView {
        ClientView {
            plan: Seq::new(self.plan@.len(), |i: int| self.plan@[i]@),
            opened: self.opened as nat,
            failed: self.failed,
        }
    }
}

impl Clone for Client {
    fn clone(&self) -> (copy: Client)
        ensures
            copy@ == self@,
            copy@.wf(),
    {
        proof {
            use_type_invariant(self);
        }
        let mut plan: Vec<Subscription> = Vec::new();
        for i in 0..self.plan.len()
            invariant
                plan@.len() == i,
                forall|j: int| 0 <= j < i ==> plan@[j]@ == self.plan@[j]@,
        {
            let subscription = &self.plan[i];
            plan.push(Subscription { kind: subscription.kind, address: subscription.address.clone() });
        }
        let copy = Client { plan, opened: self.opened, failed: self.failed };
        assert(copy@.plan =~= self@.plan);
        copy
    }
}

impl Client {
    #[verifier::type_invariant]
    spec fn opened_within_plan(self) -> bool {
        self.opened <= self.plan@.len()
    }

    /// Starts a client for the `symbol`-dedicated trade and depth streams.
    ///
    /// If `depth_period` is `None`, the depth stream is not requested;
    /// otherwise it is requested with updates every `depth_period`
    /// milliseconds. The symbol is folded to lower case in the addresses.
    ///
    /// The client that is returned has opened no stream yet: it names the
    /// streams to open one by one, through [`Client::pending`].
    pub fn run(symbol: &str, depth_period: Option<u64>) -> (client: Client)
        ensures
            client@ == ClientView::start(subscriptions(symbol@, depth_period)),
            client@.wf(),
    {
        let mut plan: Vec<Subscription> = Vec::new();
        plan.push(Subscription { kind: FeedKind::Trade, address: to_trade_address(symbol) });
        if let Some(period) = depth_period {
            plan.push(
                Subscription { kind: FeedKind::Depth, address: to_depth_address(symbol, period) },
            );
        }
        let client = Client { plan, opened: 0, failed: false };
        assert(client@.plan =~= subscriptions(symbol@, depth_period));
        client
    }

    /// The stream to open next, if there is one left and none has failed.
    pub fn pending(&self) -> (next: Option<&Subscription>)
        ensures
            self@.wf(),
            match next {
                Some(subscription) => self@.pending() == Some(subscription@),
                None => self@.pending() is None,
            },
    {
        proof {
            use_type_invariant(self);
        }
        if !self.failed && self.opened < self.plan.len() {
            Some(&self.plan[self.opened])
        } else {
            None
        }
    }

    /// Whether every stream is open: only then may the consumer be given the
    /// receiving end of the channel.
    pub fn ready(&self) -> (ready: bool)
        ensures
            self@.wf(),
            ready == self@.ready(),
    {
        proof {
            use_type_invariant(self);
        }
        !self.failed && self.opened == self.plan.len()
    }

    /// Tells the client how opening the pending stream went.
    ///
    /// A success counts the pending stream as open, with its worker started;
    /// without a pending stream it changes nothing. A failure ends the
    /// client, and its cause comes back as the error to fail with.
    pub fn step(&mut self, opening: Result<(), ::websocket::WebSocketError>) -> (result: Result<
        (),
        ConnectError,
    >)
        ensures
            old(self)@.wf(),
            final(self)@ == old(self)@.step(opening),
            final(self)@.wf(),
            result == match opening {
                Ok(_) => Ok::<(), ConnectError>(()),
                Err(cause) => Err::<(), ConnectError>(ConnectError::WebSocket(cause)),
            },
    {
        proof {
            use_type_invariant(&*self);
        }
        match opening {
            Ok(_) => {
                if !self.failed && self.opened < self.plan.len() {
                    self.opened = self.opened + 1;
                }
                Ok(())
            },
            Err(cause) => {
                self.failed = true;
                Err(ConnectError::WebSocket(cause))
            },
        }
    }
}

} // verus!
