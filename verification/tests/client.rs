use binance_client::error::ConnectError;
use binance_client::websocket::event::FeedKind;
use binance_client::websocket::Client;
use binance_client::websocket::Subscription;


#[test]
fn base_feed_alone_opens_one_stream() {
    let mut client = Client::run("btcusdt", None);
    assert!(!client.ready());
    assert_eq!(
        client.pending(),
        Some(&Subscription {
            kind: FeedKind::Trade,
            address: "wss://stream.binance.com:9443/ws/btcusdt@trade".to_string(),
        })
    );
    assert!(client.step(Ok(())).is_ok());
    assert_eq!(client.pending(), None);
    assert!(client.ready());
}

#[test]
fn depth_period_opens_a_second_stream() {
    let mut client = Client::run("btcusdt", Some(100));
    let first = client.pending().cloned();
    assert_eq!(first.map(|subscription| subscription.kind), Some(FeedKind::Trade));
    assert!(client.step(Ok(())).is_ok());
    assert!(!client.ready());
    let second = client.pending().cloned().expect("the depth stream is pending");
    assert_eq!(second.kind, FeedKind::Depth);
    assert!(second.address.contains("@depth@100ms"));
    assert_eq!(second.address, "wss://stream.binance.com:9443/ws/btcusdt@depth@100ms");
    assert!(client.step(Ok(())).is_ok());
    assert_eq!(client.pending(), None);
    assert!(client.ready());
}

#[test]
fn symbol_is_folded_to_lower_case_in_every_address() {
    let mut client = Client::run("BNBBTC", Some(1000));
    assert_eq!(
        client.pending().map(|subscription| subscription.address.clone()),
        Some("wss://stream.binance.com:9443/ws/bnbbtc@trade".to_string())
    );
    assert!(client.step(Ok(())).is_ok());
    assert_eq!(
        client.pending().map(|subscription| subscription.address.clone()),
        Some("wss://stream.binance.com:9443/ws/bnbbtc@depth@1000ms".to_string())
    );
}

#[test]
fn failure_of_the_base_stream_ends_the_client() {
    let mut client = Client::run("btcusdt", Some(100));
    let result = client.step(Err(::websocket::WebSocketError::NoDataAvailable));
    assert!(matches!(
        result,
        Err(ConnectError::WebSocket(::websocket::WebSocketError::NoDataAvailable))
    ));
    assert!(!client.ready());
    assert_eq!(client.pending(), None);
}

#[test]
fn failure_of_the_second_stream_ends_the_client() {
    let mut client = Client::run("btcusdt", Some(100));
    assert!(client.step(Ok(())).is_ok());
    let result = client.step(Err(::websocket::WebSocketError::ProtocolError("handshake refused")));
    assert!(matches!(
        result,
        Err(ConnectError::WebSocket(::websocket::WebSocketError::ProtocolError("handshake refused")))
    ));
    assert!(!client.ready());
    assert_eq!(client.pending(), None);
}

#[test]
fn failed_client_stays_failed() {
    let mut client = Client::run("btcusdt", None);
    assert!(client.step(Err(::websocket::WebSocketError::NoDataAvailable)).is_err());
    assert!(client.step(Ok(())).is_ok());
    assert!(client.step(Ok(())).is_ok());
    assert!(!client.ready());
    assert_eq!(client.pending(), None);
}

#[test]
fn failure_after_every_stream_is_open_ends_the_client_too() {
    let mut client = Client::run("btcusdt", None);
    assert!(client.step(Ok(())).is_ok());
    assert!(client.ready());
    assert!(client.step(Err(::websocket::WebSocketError::NoDataAvailable)).is_err());
    assert!(!client.ready());
}

#[test]
fn success_without_a_pending_stream_changes_nothing() {
    let mut client = Client::run("btcusdt", None);
    assert!(client.step(Ok(())).is_ok());
    assert!(client.step(Ok(())).is_ok());
    assert!(client.ready());
    assert_eq!(client.pending(), None);
}

#[test]
fn cloned_client_is_as_far_as_its_source() {
    let mut client = Client::run("btcusdt", Some(250));
    assert!(client.step(Ok(())).is_ok());
    let mut copy = client.clone();
    assert_eq!(copy.pending(), client.pending());
    assert!(copy.step(Ok(())).is_ok());
    assert!(copy.ready());
    assert!(!client.ready());
    assert_eq!(
        client.pending().map(|subscription| subscription.kind),
        Some(FeedKind::Depth)
    );
}
