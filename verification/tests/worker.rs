use binance_client::error::StreamError;
use binance_client::websocket::event::depth::Depth;
use binance_client::websocket::event::trade::Trade;
use binance_client::websocket::event::Event;
use binance_client::websocket::frame::CloseData;
use binance_client::websocket::frame::Frame;
use binance_client::websocket::worker::Action;
use binance_client::websocket::worker::Outcome;
use binance_client::websocket::worker::Reaction;
use binance_client::websocket::worker::Worker;
use binance_client::websocket::worker::WorkerState;
use rust_decimal::Decimal;


const TRADE_TEXT: &str =
    r#"{"e":"trade","E":1591677941092,"s":"BTCUSDT","t":334637666,"p":"9715.25","q":"0.004500","T":1591677941090,"m":true,"M":true}"#;

fn decoded_trade() -> Trade {
    Trade {
        event_time: 1_591_677_941_092,
        symbol: "BTCUSDT".to_string(),
        trade_id: 334_637_666,
        price: Decimal::new(971_525, 2),
        quantity: Decimal::new(4_500, 6),
        trade_time: 1_591_677_941_090,
        is_buyer_market_maker: true,
    }
}

fn decoded_depth() -> Depth {
    Depth {
        event_time: 1_591_677_941_200,
        symbol: "BTCUSDT".to_string(),
        first_update_id: 157,
        final_update_id: 160,
        bids: vec![],
        asks: vec![],
    }
}

fn json_error(text: &[u8]) -> serde_json::Error {
    serde_json::from_slice::<serde_json::Value>(text).expect_err("the text is no JSON")
}

fn accepted<P>(result: Result<Reaction, Outcome<P>>) -> Reaction {
    match result {
        Ok(reaction) => reaction,
        Err(_) => panic!("the worker did not wait for the outcome"),
    }
}

#[test]
fn new_worker_waits_for_a_frame() {
    let worker = Worker::new();
    assert_eq!(worker.state(), &WorkerState::Receiving);
    assert_eq!(worker.payload(), None);
}

#[test]
fn ping_then_trade_gives_one_pong_and_one_event() {
    let mut worker = Worker::new();
    let mut pongs = 0;
    let mut events = Vec::new();

    let reaction = accepted(worker.step::<Trade>(Outcome::Received(Ok(Frame::Ping(
        b"are you there".to_vec(),
    )))));
    assert!(reaction.error.is_none());
    match reaction.action {
        Action::Pong(payload) => {
            pongs += 1;
            assert_eq!(payload, b"pong frame".to_vec());
        }
        other => panic!("a ping was answered with {:?}", other),
    }
    assert_eq!(worker.state(), &WorkerState::Replying);

    let reaction = accepted(worker.step::<Trade>(Outcome::Replied(Ok(()))));
    assert_eq!(reaction.action, Action::Receive);
    assert!(reaction.error.is_none());
    assert_eq!(worker.state(), &WorkerState::Receiving);

    let reaction = accepted(worker.step::<Trade>(Outcome::Received(Ok(Frame::Text(
        TRADE_TEXT.to_string(),
    )))));
    assert_eq!(reaction.action, Action::Decode);
    assert!(reaction.error.is_none());
    assert_eq!(worker.payload(), Some(&TRADE_TEXT.as_bytes().to_vec()));

    let reaction = accepted(worker.step(Outcome::Decoded(Ok(decoded_trade()))));
    assert!(reaction.error.is_none());
    match reaction.action {
        Action::Deliver(event) => events.push(event),
        other => panic!("a decoded trade was answered with {:?}", other),
    }
    assert_eq!(worker.state(), &WorkerState::Delivering);

    let reaction = accepted(worker.step::<Trade>(Outcome::Delivered(true)));
    assert_eq!(reaction.action, Action::Receive);
    assert!(reaction.error.is_none());
    assert_eq!(worker.state(), &WorkerState::Receiving);

    assert_eq!(pongs, 1);
    assert_eq!(events, vec![Event::Trade(decoded_trade())]);
}

#[test]
fn empty_frame_gives_no_event_and_no_error() {
    let empty = [
        Frame::Text(String::new()),
        Frame::Binary(vec![]),
        Frame::Close(None),
        Frame::Pong(vec![]),
    ];
    for frame in empty {
        let mut worker = Worker::new();
        let reaction = accepted(worker.step::<Trade>(Outcome::Received(Ok(frame))));
        assert_eq!(reaction.action, Action::Receive);
        assert!(reaction.error.is_none());
        assert_eq!(worker.state(), &WorkerState::Receiving);
    }
}

#[test]
fn empty_ping_is_answered_all_the_same() {
    let mut worker = Worker::new();
    let reaction = accepted(worker.step::<Depth>(Outcome::Received(Ok(Frame::Ping(
        vec![],
    )))));
    assert_eq!(reaction.action, Action::Pong(b"pong frame".to_vec()));
    assert_eq!(worker.state(), &WorkerState::Replying);
}

#[test]
fn malformed_payload_is_reported_and_the_worker_goes_on() {
    let mut worker = Worker::new();
    let garbage = b"{\"e\":\"trade\"".to_vec();
    let reaction = accepted(worker.step::<Trade>(Outcome::Received(Ok(Frame::Binary(
        garbage.clone(),
    )))));
    assert_eq!(reaction.action, Action::Decode);
    assert_eq!(worker.state(), &WorkerState::Decoding(garbage.clone()));

    let cause = json_error(&garbage);
    let message = cause.to_string();
    let reaction = accepted(worker.step::<Trade>(Outcome::Decoded(Err(cause))));
    assert_eq!(reaction.action, Action::Receive);
    match reaction.error {
        Some(error @ StreamError::Decode { .. }) => {
            assert!(!error.is_fatal());
            match error {
                StreamError::Decode { cause, raw } => {
                    assert_eq!(raw, garbage);
                    assert_eq!(cause.to_string(), message);
                }
                other => panic!("a decode failure was reported as {:?}", other),
            }
        }
        other => panic!("a decode failure was reported as {:?}", other),
    }
    assert_eq!(worker.state(), &WorkerState::Receiving);
    assert_eq!(worker.payload(), None);

    let reaction = accepted(worker.step::<Trade>(Outcome::Received(Ok(Frame::Text(
        TRADE_TEXT.to_string(),
    )))));
    assert_eq!(reaction.action, Action::Decode);
    let reaction = accepted(worker.step(Outcome::Decoded(Ok(decoded_trade()))));
    assert_eq!(reaction.action, Action::Deliver(Event::Trade(decoded_trade())));
}

#[test]
fn binary_close_and_pong_frames_with_bytes_are_decoded_too() {
    let frames = [
        Frame::Binary(vec![0x03, 0xe8]),
        Frame::Close(Some(CloseData {
            status_code: 1000,
            reason: String::new(),
        })),
        Frame::Pong(vec![0x03, 0xe8]),
    ];
    for frame in frames {
        let mut worker = Worker::new();
        let reaction = accepted(worker.step::<Trade>(Outcome::Received(Ok(frame))));
        assert_eq!(reaction.action, Action::Decode);
        assert_eq!(worker.payload(), Some(&vec![0x03, 0xe8]));
    }
}

#[test]
fn closing_with_a_reason_is_held_as_code_and_reason() {
    let mut worker = Worker::new();
    let frame = Frame::Close(Some(CloseData {
        status_code: 1001,
        reason: "going away".to_string(),
    }));
    accepted(worker.step::<Depth>(Outcome::Received(Ok(frame))));
    let mut expected = vec![0x03, 0xe9];
    expected.extend_from_slice(b"going away");
    assert_eq!(worker.state(), &WorkerState::Decoding(expected));
}

#[test]
fn text_is_held_as_its_utf8_bytes() {
    let mut worker = Worker::new();
    accepted(worker.step::<Trade>(Outcome::Received(Ok(Frame::Text(
        "a\u{e9}\u{20ac}\u{1f600}".to_string(),
    )))));
    assert_eq!(
        worker.payload(),
        Some(&vec![0x61, 0xc3, 0xa9, 0xe2, 0x82, 0xac, 0xf0, 0x9f, 0x98, 0x80])
    );
}

#[test]
fn depth_payload_is_delivered_as_depth_event() {
    let mut worker = Worker::new();
    accepted(worker.step::<Depth>(Outcome::Received(Ok(Frame::Text(
        "{}".to_string(),
    )))));
    let reaction = accepted(worker.step(Outcome::Decoded(Ok(decoded_depth()))));
    assert_eq!(reaction.action, Action::Deliver(Event::Depth(decoded_depth())));
}

#[test]
fn receive_failure_ends_the_worker() {
    let mut worker = Worker::new();
    let reaction = accepted(
        worker.step::<Trade>(Outcome::Received(Err(::websocket::WebSocketError::NoDataAvailable))),
    );
    assert_eq!(reaction.action, Action::Stop);
    assert!(matches!(
        reaction.error,
        Some(StreamError::Receive(::websocket::WebSocketError::NoDataAvailable))
    ));
    assert!(reaction.error.map_or(false, |error| error.is_fatal()));
    assert_eq!(worker.state(), &WorkerState::Terminated);
}

#[test]
fn pong_failure_is_reported_and_the_worker_goes_on() {
    let mut worker = Worker::new();
    accepted(worker.step::<Trade>(Outcome::Received(Ok(Frame::Ping(vec![7])))));
    let reaction = accepted(worker.step::<Trade>(Outcome::Replied(Err(
        ::websocket::WebSocketError::ProtocolError("connection is closing"),
    ))));
    assert_eq!(reaction.action, Action::Receive);
    assert!(matches!(
        reaction.error,
        Some(StreamError::LivenessReply(::websocket::WebSocketError::ProtocolError(
            "connection is closing"
        )))
    ));
    assert!(!reaction.error.map_or(true, |error| error.is_fatal()));
    assert_eq!(worker.state(), &WorkerState::Receiving);
}

#[test]
fn dropped_receiver_ends_the_worker_at_the_next_delivery() {
    let mut worker = Worker::new();
    accepted(worker.step::<Trade>(Outcome::Received(Ok(Frame::Text(
        TRADE_TEXT.to_string(),
    )))));
    accepted(worker.step(Outcome::Decoded(Ok(decoded_trade()))));
    let reaction = accepted(worker.step::<Trade>(Outcome::Delivered(false)));
    assert_eq!(reaction.action, Action::Stop);
    assert!(matches!(reaction.error, Some(StreamError::Delivery)));
    assert!(reaction.error.map_or(false, |error| error.is_fatal()));
    assert_eq!(worker.state(), &WorkerState::Terminated);
}

#[test]
fn terminated_worker_waits_for_nothing() {
    let mut worker = Worker::new();
    accepted(worker.step::<Trade>(Outcome::Received(Err(::websocket::WebSocketError::NoDataAvailable))));
    let frame = Frame::Text(TRADE_TEXT.to_string());
    match worker.step::<Trade>(Outcome::Received(Ok(frame))) {
        Err(Outcome::Received(Ok(frame))) => assert_eq!(frame, Frame::Text(TRADE_TEXT.to_string())),
        other => panic!("a terminated worker answered {:?}", other),
    }
    assert!(worker.step::<Trade>(Outcome::Replied(Ok(()))).is_err());
    assert!(worker.step(Outcome::Decoded(Ok(decoded_trade()))).is_err());
    assert!(worker.step::<Trade>(Outcome::Delivered(true)).is_err());
    assert_eq!(worker.state(), &WorkerState::Terminated);
}

#[test]
fn outcome_that_is_not_waited_for_is_handed_back() {
    let mut worker = Worker::new();
    match worker.step(Outcome::Decoded(Ok(decoded_trade()))) {
        Err(Outcome::Decoded(Ok(trade))) => assert_eq!(trade, decoded_trade()),
        other => panic!("a stray outcome was answered with {:?}", other),
    }
    assert!(worker.step::<Trade>(Outcome::Delivered(false)).is_err());
    assert!(worker.step::<Trade>(Outcome::Replied(Ok(()))).is_err());
    assert_eq!(worker.state(), &WorkerState::Receiving);

    accepted(worker.step::<Trade>(Outcome::Received(Ok(Frame::Binary(
        vec![b'x'],
    )))));
    assert!(worker
        .step::<Trade>(Outcome::Received(Err(::websocket::WebSocketError::NoDataAvailable)))
        .is_err());
    assert_eq!(worker.state(), &WorkerState::Decoding(vec![b'x']));
}

#[test]
fn events_are_delivered_in_the_order_of_their_frames() {
    let mut worker = Worker::new();
    let mut events = Vec::new();
    for trade_id in [3_i64, 1, 2] {
        accepted(worker.step::<Trade>(Outcome::Received(Ok(Frame::Text(
            TRADE_TEXT.to_string(),
        )))));
        let mut trade = decoded_trade();
        trade.trade_id = trade_id;
        match accepted(worker.step(Outcome::Decoded(Ok(trade)))).action {
            Action::Deliver(Event::Trade(trade)) => events.push(trade.trade_id),
            other => panic!("a decoded trade was answered with {:?}", other),
        }
        accepted(worker.step::<Trade>(Outcome::Delivered(true)));
    }
    assert_eq!(events, vec![3, 1, 2]);
}
