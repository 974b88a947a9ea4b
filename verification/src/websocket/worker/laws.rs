//! What holds of every stream worker.

use vstd::prelude::*;

use crate::error::StreamErrorView;
use crate::websocket::event::Payload;
use crate::websocket::frame::pong_payload;
use crate::websocket::frame::FrameView;

use super::model::decoded;
use super::model::delivered;
use super::model::orderly;
use super::model::pings;
use super::model::pongs;
use super::model::run;
use super::model::ActionView;
use super::model::OutcomeView;
use super::model::ReactionView;
use super::model::StateView;

verus! {

/// A run goes on with each outcome: telling a worker one more outcome adds
/// the answer to it, if the worker waits for it, to the answers so far, and
/// counts it among the pings and the decoded payloads if it is one.
pub proof fn lemma_one_more_outcome<P: Payload>(
    state: StateView,
    outcomes: Seq<OutcomeView<P>>,
    outcome: OutcomeView<P>,
)
    ensures
        run(state, outcomes.push(outcome)) == if run(state, outcomes).0.awaits(outcome) {
            (
                run(state, outcomes).0.react(outcome).0,
                run(state, outcomes).1.push(run(state, outcomes).0.react(outcome).1),
            )
        } else {
            run(state, outcomes)
        },
        orderly(state, outcomes.push(outcome)) <==> orderly(state, outcomes) && run(
            state,
            outcomes,
        ).0.awaits(outcome),
        pings(outcomes.push(outcome)) == pings(outcomes) + if outcome matches OutcomeView::Received(
            Ok(frame),
        ) && frame.is_ping() {
            1nat
        } else {
            0nat
        },
        decoded(outcomes.push(outcome)) == if let OutcomeView::Decoded(Ok(payload)) = outcome {
            decoded(outcomes).push(payload.wrap())
        } else {
            decoded(outcomes)
        },
{
    assert(outcomes.push(outcome).drop_last() =~= outcomes);
}

/// The action of an answer names the state that follows: a driver that
/// performs the action and reports its outcome is always waited for.
pub proof fn lemma_action_names_next_state<P: Payload>(state: StateView, outcome: OutcomeView<P>)
    requires
        state.awaits(outcome),
    ensures
        ({
            let (next, reaction) = state.react(outcome);
            &&& reaction.action is Receive <==> next is Receiving
            &&& reaction.action is Pong <==> next is Replying
            &&& reaction.action is Decode <==> next is Decoding
            &&& reaction.action is Deliver <==> next is Delivering
            &&& reaction.action is Stop <==> next is Terminated
        }),
{
}

/// A liveness probe is answered with a pong that carries bytes, and with
/// nothing else: no event is delivered. Whether the pong goes out or not, the
/// worker then waits for the next frame.
pub proof fn lemma_ping_is_answered<P: Payload>(
    frame: FrameView,
    sent: Result<(), ::websocket::WebSocketError>,
)
    requires
        frame.is_ping(),
    ensures
        StateView::Receiving.react(OutcomeView::<P>::Received(Ok(frame))).0 == StateView::Replying,
        StateView::Receiving.react(OutcomeView::<P>::Received(Ok(frame))).1.action
            == ActionView::Pong(pong_payload()),
        pong_payload().len() > 0,
        StateView::Replying.react(OutcomeView::<P>::Replied(sent)).0 == StateView::Receiving,
        StateView::Replying.react(OutcomeView::<P>::Replied(sent)).1.action == ActionView::Receive,
{
}

/// A frame without bytes that is no liveness probe changes nothing: no event
/// is delivered, no error is reported, and the worker waits for the next
/// frame.
pub proof fn lemma_empty_frame_is_ignored<P: Payload>(frame: FrameView)
    requires
        !frame.is_ping(),
        frame.payload().len() == 0,
    ensures
        StateView::Receiving.react(OutcomeView::<P>::Received(Ok(frame))) == (
            StateView::Receiving,
            ReactionView { action: ActionView::Receive, error: None },
        ),
{
}

/// Bytes that cannot be decoded are reported, with the cause and the bytes
/// themselves, and the worker waits for the next frame: no event is
/// delivered, and the worker does not end.
pub proof fn lemma_undecodable_payload_is_reported<P: Payload>(
    raw: Seq<u8>,
    cause: ::serde_json::Error,
)
    ensures
        StateView::Decoding(raw).react(OutcomeView::<P>::Decoded(Err(cause))) == (
            StateView::Receiving,
            ReactionView {
                action: ActionView::Receive,
                error: Some(StreamErrorView::Decode { cause, raw }),
            },
        ),
{
}

/// After bytes that cannot be decoded the worker serves the next frame as it
/// serves any other: the payload decoded from it is delivered.
pub proof fn lemma_worker_recovers_from_undecodable_payload<P: Payload>(
    raw: Seq<u8>,
    cause: ::serde_json::Error,
    frame: FrameView,
    payload: P,
)
    requires
        !frame.is_ping(),
        frame.payload().len() > 0,
    ensures
        ({
            let (end, reactions) = run(
                StateView::Decoding(raw),
                seq![
                    OutcomeView::Decoded(Err(cause)),
                    OutcomeView::Received(Ok(frame)),
                    OutcomeView::Decoded(Ok(payload)),
                ],
            );
            &&& end == StateView::Delivering
            &&& reactions.len() == 3
            &&& reactions[1].action == ActionView::Decode
            &&& reactions[2].action == ActionView::Deliver(payload.wrap())
        }),
{
    let start = StateView::Decoding(raw);
    let none = Seq::<OutcomeView<P>>::empty();
    let first = OutcomeView::<P>::Decoded(Err(cause));
    let second = OutcomeView::<P>::Received(Ok(frame));
    let third = OutcomeView::<P>::Decoded(Ok(payload));
    lemma_one_more_outcome(start, none, first);
    lemma_one_more_outcome(start, none.push(first), second);
    lemma_one_more_outcome(start, none.push(first).push(second), third);
    assert(seq![first, second, third] =~= none.push(first).push(second).push(third));
}

/// Every event that a worker delivers wraps the payload that was decoded, and
/// is of the stream that the payload type belongs to.
pub proof fn lemma_delivers_decoded_payload<P: Payload>(state: StateView, outcome: OutcomeView<P>)
    requires
        state.awaits(outcome),
    ensures
        state.react(outcome).1.action matches ActionView::Deliver(event) ==> {
            &&& outcome matches OutcomeView::Decoded(Ok(payload))
            &&& event == payload.wrap()
            &&& event.kind() == P::feed()
        },
        outcome matches OutcomeView::Decoded(Ok(payload)) ==> state.react(outcome).1.action
            == ActionView::Deliver(payload.wrap()),
{
    if let OutcomeView::Decoded(Ok(payload)) = outcome {
        payload.lemma_wrapped_by_own_kind();
    }
}

/// When the consumer is gone, the worker ends at the event it next tries to
/// hand over: it asks to stop, and waits for nothing more.
pub proof fn lemma_consumer_gone_ends_worker<P: Payload>()
    ensures
        StateView::Delivering.react(OutcomeView::<P>::Delivered(false)) == (
            StateView::Terminated,
            ReactionView { action: ActionView::Stop, error: Some(StreamErrorView::Delivery) },
        ),
        forall|outcome: OutcomeView<P>| !StateView::Terminated.awaits(outcome),
{
}

/// A worker ends for two reasons only: receiving failed, or the consumer was
/// gone when an event was handed over. Both end it.
pub proof fn lemma_worker_ends_on_failure_or_consumer_gone<P: Payload>(
    state: StateView,
    outcome: OutcomeView<P>,
)
    requires
        state.awaits(outcome),
    ensures
        state.react(outcome).0 is Terminated <==> (outcome matches OutcomeView::Received(Err(_))
            || outcome == OutcomeView::<P>::Delivered(false)),
{
}

/// A worker ends exactly when it reports a fatal error: after any other
/// error, and where nothing went wrong, it goes on.
pub proof fn lemma_worker_ends_on_fatal_error_only<P: Payload>(
    state: StateView,
    outcome: OutcomeView<P>,
)
    requires
        state.awaits(outcome),
    ensures
        state.react(outcome).0 is Terminated <==> (state.react(outcome).1.error matches Some(error)
            && error.is_fatal()),
{
}

/// Whatever goes wrong, and only that, is reported as an error: a failure
/// to receive, to decode, to answer a liveness probe or to deliver, each
/// with the cause given for it.
pub proof fn lemma_errors_are_reported<P: Payload>(state: StateView, outcome: OutcomeView<P>)
    requires
        state.awaits(outcome),
    ensures
        state.react(outcome).1.error == match outcome {
            OutcomeView::Received(Err(cause)) => Some(StreamErrorView::Receive(cause)),
            OutcomeView::Replied(Err(cause)) => Some(StreamErrorView::LivenessReply(cause)),
            OutcomeView::Decoded(Err(cause)) => Some(
                StreamErrorView::Decode { cause, raw: state.raw() },
            ),
            OutcomeView::Delivered(false) => Some(StreamErrorView::Delivery),
            _ => None,
        },
{
}

/// A worker that has ended stays so: it waits for nothing, answers nothing,
/// and whatever it is told is passed over.
pub proof fn lemma_terminated_is_final<P: Payload>(outcomes: Seq<OutcomeView<P>>)
    ensures
        forall|outcome: OutcomeView<P>| !StateView::Terminated.awaits(outcome),
        run(StateView::Terminated, outcomes) == (StateView::Terminated, Seq::<ReactionView>::empty()),
    decreases outcomes.len(),
{
    if outcomes.len() > 0 {
        lemma_terminated_is_final(outcomes.drop_last());
    }
}

/// A liveness probe and then a frame that carries a payload, on one
/// connection: the worker asks for one pong and delivers one event, which
/// wraps the payload, and then waits for the next frame.
pub proof fn lemma_ping_then_payload<P: Payload>(
    ping: FrameView,
    sent: Result<(), ::websocket::WebSocketError>,
    frame: FrameView,
    payload: P,
)
    requires
        ping.is_ping(),
        !frame.is_ping(),
        frame.payload().len() > 0,
    ensures
        ({
            let (end, reactions) = run(
                StateView::Receiving,
                seq![
                    OutcomeView::Received(Ok(ping)),
                    OutcomeView::Replied(sent),
                    OutcomeView::Received(Ok(frame)),
                    OutcomeView::Decoded(Ok(payload)),
                    OutcomeView::Delivered(true),
                ],
            );
            &&& end == StateView::Receiving
            &&& pongs(reactions) == 1
            &&& delivered(reactions) == seq![payload.wrap()]
        }),
{
    let start = StateView::Receiving;
    let none = Seq::<OutcomeView<P>>::empty();
    let first = OutcomeView::<P>::Received(Ok(ping));
    let second = OutcomeView::<P>::Replied(sent);
    let third = OutcomeView::<P>::Received(Ok(frame));
    let fourth = OutcomeView::<P>::Decoded(Ok(payload));
    let fifth = OutcomeView::<P>::Delivered(true);
    let all = none.push(first).push(second).push(third).push(fourth).push(fifth);
    lemma_one_more_outcome(start, none, first);
    lemma_one_more_outcome(start, none.push(first), second);
    lemma_one_more_outcome(start, none.push(first).push(second), third);
    lemma_one_more_outcome(start, none.push(first).push(second).push(third), fourth);
    lemma_one_more_outcome(start, none.push(first).push(second).push(third).push(fourth), fifth);
    lemma_one_pong_per_ping(start, all);
    lemma_events_keep_order(start, all);
    assert(seq![first, second, third, fourth, fifth] =~= all);
    assert(decoded(all) =~= seq![payload.wrap()]);
}

/// A worker answers each outcome it waits for with one answer.
pub proof fn lemma_orderly_run_answers_each<P: Payload>(
    state: StateView,
    outcomes: Seq<OutcomeView<P>>,
)
    requires
        orderly(state, outcomes),
    ensures
        run(state, outcomes).1.len() == outcomes.len(),
    decreases outcomes.len(),
{
    if outcomes.len() > 0 {
        lemma_orderly_run_answers_each(state, outcomes.drop_last());
    }
}

/// The order of a connection is kept: the events that a worker delivers are
/// those of the payloads decoded, one for one and in the order of decoding.
pub proof fn lemma_events_keep_order<P: Payload>(state: StateView, outcomes: Seq<OutcomeView<P>>)
    requires
        orderly(state, outcomes),
    ensures
        delivered(run(state, outcomes).1) == decoded(outcomes),
    decreases outcomes.len(),
{
    if outcomes.len() > 0 {
        let (before, reactions) = run(state, outcomes.drop_last());
        let reaction = before.react(outcomes.last()).1;
        lemma_events_keep_order(state, outcomes.drop_last());
        assert(reactions.push(reaction).drop_last() =~= reactions);
    }
}

/// Each liveness probe is answered once: a worker asks for as many pongs as
/// it received pings.
pub proof fn lemma_one_pong_per_ping<P: Payload>(state: StateView, outcomes: Seq<OutcomeView<P>>)
    requires
        orderly(state, outcomes),
    ensures
        pongs(run(state, outcomes).1) == pings(outcomes),
    decreases outcomes.len(),
{
    if outcomes.len() > 0 {
        let (before, reactions) = run(state, outcomes.drop_last());
        let reaction = before.react(outcomes.last()).1;
        lemma_one_pong_per_ping(state, outcomes.drop_last());
        assert(reactions.push(reaction).drop_last() =~= reactions);
    }
}

} // verus!
