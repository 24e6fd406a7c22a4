use yahoo_finance::quote::{convert_session, QuoteType, TradingSession};
use yahoo_finance::registry::{Consumer, Registry};
use yahoo_finance::session::{
    dispatch, subscribe_message, wrap_subscription, Action, ConnectionState, Frame, Outbound, Session,
};
use yahoo_finance::wire::{DecodeError, PricingData};

fn symbols(list: &[&str]) -> Vec<String> {
    list.iter().map(|s| s.to_string()).collect()
}

fn frame_for(symbol: &str, market_hours: u64) -> Frame {
    let data = PricingData {
        id: symbol.to_string(),
        price_bits: 101.5f32.to_bits(),
        time: 1_600_000_000_000,
        quote_type: 8,
        market_hours,
        day_volume: 1000,
    };
    Frame::Text(base64::encode(data.encode()))
}

fn streaming(registry: &Registry) -> Session {
    let mut session = Session::new();
    assert_eq!(session.start(), Action::Open);
    match session.connected(registry) {
        Action::Send(Outbound::Text(_)) => {}
        other => panic!("unexpected {:?}", other),
    }
    session.sent();
    assert_eq!(session.state(), ConnectionState::Streaming);
    session
}

#[test]
fn unknown_codes_map_to_other() {
    for code in [3u64, 4, 7, 100, u64::MAX] {
        assert_eq!(TradingSession::from_pd(code), TradingSession::Other);
        assert_eq!(convert_session(code), TradingSession::Other);
    }
    for code in [1u64, 2, 5, 10, 20, u64::MAX] {
        assert_eq!(QuoteType::from_pd(code), QuoteType::Other);
    }
    assert_eq!(TradingSession::from_pd(0), TradingSession::PreMarket);
    assert_eq!(TradingSession::from_pd(1), TradingSession::Regular);
    assert_eq!(TradingSession::from_pd(2), TradingSession::AfterHours);
    assert_eq!(QuoteType::from_pd(0), QuoteType::Unspecified);
    assert_eq!(QuoteType::from_pd(8), QuoteType::Equity);
    assert_eq!(QuoteType::from_pd(9), QuoteType::Index);
}

#[test]
fn subscribe_returns_new_symbols_only() {
    let mut registry = Registry::new();
    let added = registry.subscribe(&symbols(&["AAPL"]), Consumer::Callback(1));
    assert_eq!(added, symbols(&["AAPL"]));
    let added = registry.subscribe(&symbols(&["AAPL", "QQQ"]), Consumer::Callback(1));
    assert_eq!(added, symbols(&["QQQ"]));
    assert_eq!(registry.all_symbols(), symbols(&["AAPL", "QQQ"]));
    assert_eq!(registry.lookup(&"AAPL".to_string()), vec![Consumer::Callback(1)]);
}

#[test]
fn announcement_has_each_symbol_once() {
    let mut registry = Registry::new();
    registry.subscribe(&symbols(&["AAPL"]), Consumer::Callback(1));
    registry.subscribe(&symbols(&["AAPL", "QQQ"]), Consumer::Callback(2));
    let mut session = Session::new();
    session.start();
    assert_eq!(
        session.connected(&registry),
        Action::Send(Outbound::Text("{\"subscribe\":[\"AAPL\",\"QQQ\"]}".to_string()))
    );
    assert_eq!(session.state(), ConnectionState::Announcing);
}

#[test]
fn empty_announcement_is_still_sent() {
    let registry = Registry::new();
    let mut session = Session::new();
    session.start();
    assert_eq!(
        session.connected(&registry),
        Action::Send(Outbound::Text("{\"subscribe\":[]}".to_string()))
    );
}

#[test]
fn subscribe_message_text() {
    assert_eq!(
        subscribe_message(&symbols(&["^DJI", "^IXIC"])),
        "{\"subscribe\":[\"^DJI\",\"^IXIC\"]}".to_string()
    );
    assert_eq!(subscribe_message(&Vec::new()), "{\"subscribe\":[]}");
    assert_eq!(wrap_subscription("[1]"), "{\"subscribe\":[1]}");
}

#[test]
fn same_symbol_two_consumers_fan_out() {
    let mut registry = Registry::new();
    registry.subscribe(&symbols(&["AAPL"]), Consumer::Callback(1));
    let added = registry.subscribe(&symbols(&["AAPL"]), Consumer::Sink(2));
    assert!(added.is_empty());
    let mut session = streaming(&registry);
    match session.received(frame_for("AAPL", 1), &registry) {
        Action::Deliver(quote, consumers) => {
            assert_eq!(quote.symbol, "AAPL");
            assert_eq!(consumers, vec![Consumer::Callback(1), Consumer::Sink(2)]);
        }
        other => panic!("unexpected {:?}", other),
    }
}

#[test]
fn same_consumer_is_registered_once() {
    let mut registry = Registry::new();
    registry.subscribe(&symbols(&["AAPL", "AAPL"]), Consumer::Callback(1));
    registry.subscribe(&symbols(&["AAPL"]), Consumer::Callback(1));
    assert_eq!(registry.lookup(&"AAPL".to_string()), vec![Consumer::Callback(1)]);
    assert_eq!(registry.all_symbols(), symbols(&["AAPL"]));
}

#[test]
fn data_frame_reaches_subscriber() {
    let mut registry = Registry::new();
    registry.subscribe(&symbols(&["AAPL"]), Consumer::Callback(7));
    let mut session = streaming(&registry);
    match session.received(frame_for("AAPL", 1), &registry) {
        Action::Deliver(quote, consumers) => {
            assert_eq!(quote.symbol, "AAPL");
            assert_eq!(quote.session, TradingSession::Regular);
            assert_eq!(quote.quote_type, QuoteType::Equity);
            assert_eq!(quote.timestamp, 1_600_000_000_000);
            assert_eq!(quote.volume, 1000);
            assert_eq!(f32::from_bits(quote.price_bits), 101.5f32);
            assert_eq!(consumers, vec![Consumer::Callback(7)]);
        }
        other => panic!("unexpected {:?}", other),
    }
}

#[test]
fn unsubscribed_symbol_is_discarded() {
    let mut registry = Registry::new();
    registry.subscribe(&symbols(&["AAPL"]), Consumer::Callback(7));
    let mut session = streaming(&registry);
    match session.received(frame_for("MSFT", 1), &registry) {
        Action::Deliver(_, consumers) => assert!(consumers.is_empty()),
        other => panic!("unexpected {:?}", other),
    }
}

#[test]
fn ping_gets_one_pong() {
    let registry = Registry::new();
    let mut session = streaming(&registry);
    assert_eq!(
        session.received(Frame::Ping(vec![1, 2, 3]), &registry),
        Action::Send(Outbound::Pong(vec![1, 2, 3]))
    );
    assert_eq!(session.received(Frame::Pong(vec![]), &registry), Action::Nothing);
    assert_eq!(session.state(), ConnectionState::Streaming);
}

#[test]
fn decode_failure_does_not_stop_the_feed() {
    let mut registry = Registry::new();
    registry.subscribe(&symbols(&["AAPL"]), Consumer::Callback(1));
    let mut session = streaming(&registry);
    assert_eq!(
        session.received(Frame::Text("%%%".to_string()), &registry),
        Action::Skip(DecodeError::Envelope)
    );
    assert_eq!(
        session.received(Frame::Binary(vec![0x0A, 0x09]), &registry),
        Action::Skip(DecodeError::Payload)
    );
    assert_eq!(session.state(), ConnectionState::Streaming);
    match session.received(frame_for("AAPL", 2), &registry) {
        Action::Deliver(quote, consumers) => {
            assert_eq!(quote.session, TradingSession::AfterHours);
            assert_eq!(consumers, vec![Consumer::Callback(1)]);
        }
        other => panic!("unexpected {:?}", other),
    }
}

#[test]
fn close_frame_ends_dispatch_and_stop_is_idempotent() {
    let mut registry = Registry::new();
    registry.subscribe(&symbols(&["AAPL"]), Consumer::Callback(1));
    let mut session = streaming(&registry);
    assert_eq!(session.received(Frame::Close, &registry), Action::CloseTransport);
    assert_eq!(session.state(), ConnectionState::ShuttingDown);
    assert!(session.is_shutting_down());
    assert_eq!(session.received(frame_for("AAPL", 1), &registry), Action::Nothing);
    assert_eq!(session.stop(), Action::Nothing);
    assert_eq!(session.stop(), Action::Nothing);
    assert_eq!(session.state(), ConnectionState::ShuttingDown);
    session.finished();
    assert_eq!(session.state(), ConnectionState::Closed);
    assert_eq!(session.received(frame_for("AAPL", 1), &registry), Action::Nothing);
    assert_eq!(session.start(), Action::Nothing);
}

#[test]
fn stop_twice_same_as_once() {
    let registry = Registry::new();
    let mut session = streaming(&registry);
    assert_eq!(session.stop(), Action::CloseTransport);
    let after_first = session.state();
    assert_eq!(session.stop(), Action::Nothing);
    assert_eq!(session.state(), after_first);
    let mut idle = Session::new();
    assert_eq!(idle.stop(), Action::Nothing);
    assert_eq!(idle.state(), ConnectionState::Closed);
}

#[test]
fn late_subscription_is_announced() {
    let mut registry = Registry::new();
    registry.subscribe(&symbols(&["AAPL"]), Consumer::Callback(1));
    let mut session = streaming(&registry);
    let added = registry.subscribe(&symbols(&["AAPL", "QQQ"]), Consumer::Callback(2));
    assert_eq!(
        session.announce(&added),
        Action::Send(Outbound::Text("{\"subscribe\":[\"QQQ\"]}".to_string()))
    );
    assert_eq!(session.announce(&Vec::new()), Action::Nothing);
    let mut idle = Session::new();
    assert_eq!(idle.announce(&added), Action::Nothing);
}

#[test]
fn connect_failure_and_transport_errors() {
    let mut session = Session::new();
    session.start();
    session.connect_failed();
    assert_eq!(session.state(), ConnectionState::Closed);
    let registry = Registry::new();
    let mut live = streaming(&registry);
    assert_eq!(live.failed(), Action::CloseTransport);
    assert_eq!(live.state(), ConnectionState::ShuttingDown);
    assert_eq!(live.failed(), Action::Nothing);
}

#[test]
fn dispatch_uses_registry() {
    let mut registry = Registry::new();
    registry.subscribe(&symbols(&["QQQ"]), Consumer::Sink(3));
    assert_eq!(dispatch(&registry, Err(DecodeError::Payload)), Action::Skip(DecodeError::Payload));
}

#[test]
fn announcement_escapes_like_json() {
    let tricky = vec![
        "a\"b".to_string(),
        "back\\slash".to_string(),
        "\u{8}\t\n\u{c}\r".to_string(),
        "\u{1}\u{1f}".to_string(),
        "caf\u{e9}/\u{7f}".to_string(),
    ];
    assert_eq!(
        subscribe_message(&tricky),
        "{\"subscribe\":[\"a\\\"b\",\"back\\\\slash\",\"\\b\\t\\n\\f\\r\",\"\\u0001\\u001f\",\"caf\u{e9}/\u{7f}\"]}"
    );
}

#[test]
fn announcements_cover_every_symbol_once() {
    let mut registry = Registry::new();
    registry.subscribe(&symbols(&["AAPL", "^DJI"]), Consumer::Callback(1));
    let mut announced = registry.all_symbols();
    let added = registry.subscribe(&symbols(&["QQQ", "AAPL", "^IXIC"]), Consumer::Sink(2));
    announced.extend(added);
    assert_eq!(announced, registry.all_symbols());
    assert_eq!(announced, symbols(&["AAPL", "^DJI", "QQQ", "^IXIC"]));
}
