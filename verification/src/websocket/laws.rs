//! What holds of every client.

use vstd::prelude::*;

use crate::websocket::event::FeedKind;

use super::model::subscriptions;
use super::model::ClientView;
use super::model::SubscriptionView;

verus! {

/// The `trade` stream is always opened, and first; the `depth` stream is
/// opened after it exactly where an update period is given. No other stream
/// is opened.
pub proof fn lemma_one_stream_per_enabled_feed(symbol: Seq<char>, depth_period: Option<u64>)
    ensures
        subscriptions(symbol, depth_period).len() == if depth_period is Some {
            2nat
        } else {
            1nat
        },
        subscriptions(symbol, depth_period)[0].kind == FeedKind::Trade,
        depth_period is Some ==> subscriptions(symbol, depth_period)[1].kind == FeedKind::Depth,
{
}

/// A stream that cannot be opened ends the client: whatever it had opened
/// and whatever it is told afterwards, it opens no further stream and is
/// never ready, so that the consumer is never served.
pub proof fn lemma_failure_is_final(
    client: ClientView,
    cause: ::websocket::WebSocketError,
    later: Seq<Result<(), ::websocket::WebSocketError>>,
)
    ensures
        client.step(Err(cause)).after(later).failed,
        client.step(Err(cause)).after(later).pending() is None,
        !client.step(Err(cause)).after(later).ready(),
        client.step(Err(cause)).after(later).opened == client.opened,
    decreases later.len(),
{
    if later.len() > 0 {
        lemma_failure_is_final(client, cause, later.drop_last());
    }
}

/// Telling a client about openings keeps its plan, and keeps it from having
/// opened more streams than the plan holds.
pub proof fn lemma_plan_is_kept(
    client: ClientView,
    openings: Seq<Result<(), ::websocket::WebSocketError>>,
)
    requires
        client.wf(),
    ensures
        client.after(openings).wf(),
        client.after(openings).plan == client.plan,
        client.after(openings).opened >= client.opened,
    decreases openings.len(),
{
    if openings.len() > 0 {
        lemma_plan_is_kept(client, openings.drop_last());
    }
}

/// All or nothing: a client that starts on a plan is ready exactly when it
/// has been told of as many openings as the plan holds streams, and of no
/// failure. It has then opened each stream of the plan once.
pub proof fn lemma_ready_iff_all_opened(
    plan: Seq<SubscriptionView>,
    openings: Seq<Result<(), ::websocket::WebSocketError>>,
)
    ensures
        ClientView::start(plan).after(openings).ready() <==> {
            &&& openings.len() >= plan.len()
            &&& forall|i: int| 0 <= i < openings.len() ==> openings[i] is Ok
        },
        ClientView::start(plan).after(openings).ready() ==> ClientView::start(plan).after(
            openings,
        ).opened == plan.len(),
{
    lemma_opened_counts_successes(plan, openings);
}

/// While no opening fails, a client that starts on a plan has opened as many
/// streams as it was told of, up to the length of the plan; once one fails,
/// the client has failed.
pub proof fn lemma_opened_counts_successes(
    plan: Seq<SubscriptionView>,
    openings: Seq<Result<(), ::websocket::WebSocketError>>,
)
    ensures
        ClientView::start(plan).after(openings).plan == plan,
        ClientView::start(plan).after(openings).failed <==> exists|i: int|
            0 <= i < openings.len() && openings[i] is Err,
        !ClientView::start(plan).after(openings).failed ==> ClientView::start(plan).after(
            openings,
        ).opened == if openings.len() <= plan.len() {
            openings.len()
        } else {
            plan.len()
        },
    decreases openings.len(),
{
    if openings.len() > 0 {
        let before = openings.drop_last();
        lemma_opened_counts_successes(plan, before);
        if exists|i: int| 0 <= i < openings.len() && openings[i] is Err {
            let i = choose|i: int| 0 <= i < openings.len() && openings[i] is Err;
            if i < before.len() {
                assert(before[i] is Err);
            }
        }
    }
}

} // verus!
