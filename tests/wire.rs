use yahoo_finance::quote::{Quote, QuoteType, TradingSession};
use yahoo_finance::wire::{decode_payload, decode_text, zigzag_decode, zigzag_encode_i64, DecodeError, PricingData};

fn sample(symbol: &str, market_hours: u64, quote_type: u64) -> PricingData {
    PricingData {
        id: symbol.to_string(),
        price_bits: 187.25f32.to_bits(),
        time: 1_700_000_000_000,
        quote_type,
        market_hours,
        day_volume: 52_301_822,
    }
}

#[test]
fn payload_round_trip() {
    let data = sample("AAPL", 1, 8);
    let bytes = data.encode();
    assert_eq!(PricingData::decode(&bytes), Ok(data));
}

#[test]
fn payload_round_trip_negative_numbers() {
    let data = PricingData {
        id: "^DJI".to_string(),
        price_bits: (-1.5f32).to_bits(),
        time: i64::MIN,
        quote_type: u64::MAX,
        market_hours: 3,
        day_volume: -1,
    };
    let bytes = data.encode();
    assert_eq!(PricingData::decode(&bytes), Ok(data));
}

#[test]
fn payload_round_trip_unicode_symbol() {
    let data = sample("BRK\u{e9}", 0, 9);
    let bytes = data.encode();
    assert_eq!(PricingData::decode(&bytes), Ok(data));
}

#[test]
fn text_frame_round_trip() {
    let data = sample("AAPL", 1, 8);
    let text = base64::encode(data.encode());
    let quote = decode_text(&text).unwrap();
    assert_eq!(
        quote,
        Quote {
            symbol: "AAPL".to_string(),
            quote_type: QuoteType::Equity,
            timestamp: 1_700_000_000_000,
            session: TradingSession::Regular,
            price_bits: 187.25f32.to_bits(),
            volume: 52_301_822,
        }
    );
    assert_eq!(f32::from_bits(quote.price_bits), 187.25f32);
}

#[test]
fn binary_frame_without_envelope() {
    let data = sample("QQQ", 2, 20);
    let quote = decode_payload(&data.encode()).unwrap();
    assert_eq!(quote.symbol, "QQQ");
    assert_eq!(quote.session, TradingSession::AfterHours);
    assert_eq!(quote.quote_type, QuoteType::Other);
}

#[test]
fn known_wire_bytes() {
    // id "A" (field 1), price 1.0 (field 2), time -1 (field 3), quote type 9,
    // market hours 0, day volume 150 (zigzag 300 = 0xAC 0x02)
    let bytes: Vec<u8> = vec![
        0x0A, 0x01, b'A', 0x15, 0x00, 0x00, 0x80, 0x3F, 0x18, 0x01, 0x30, 0x09, 0x38, 0x00, 0x48,
        0xAC, 0x02,
    ];
    let quote = decode_payload(&bytes).unwrap();
    assert_eq!(quote.symbol, "A");
    assert_eq!(f32::from_bits(quote.price_bits), 1.0f32);
    assert_eq!(quote.timestamp, -1);
    assert_eq!(quote.quote_type, QuoteType::Index);
    assert_eq!(quote.session, TradingSession::PreMarket);
    assert_eq!(quote.volume, 150);
}

#[test]
fn unknown_fields_are_skipped() {
    let mut bytes: Vec<u8> = vec![0x0A, 0x02, b'X', b'Y'];
    // field 4 (currency, text), field 8 (float), field 14 (varint), field 30 (fixed64)
    bytes.extend_from_slice(&[0x22, 0x03, b'U', b'S', b'D']);
    bytes.extend_from_slice(&[0x45, 1, 2, 3, 4]);
    bytes.extend_from_slice(&[0x70, 0x96, 0x01]);
    bytes.extend_from_slice(&[0xF1, 0x01, 1, 2, 3, 4, 5, 6, 7, 8]);
    bytes.extend_from_slice(&[0x38, 0x01]);
    let quote = decode_payload(&bytes).unwrap();
    assert_eq!(quote.symbol, "XY");
    assert_eq!(quote.session, TradingSession::Regular);
    assert_eq!(quote.timestamp, 0);
    assert_eq!(quote.volume, 0);
    assert_eq!(quote.quote_type, QuoteType::Unspecified);
}

#[test]
fn last_occurrence_of_a_field_wins() {
    let bytes: Vec<u8> = vec![0x38, 0x00, 0x38, 0x02];
    let quote = decode_payload(&bytes).unwrap();
    assert_eq!(quote.session, TradingSession::AfterHours);
    assert_eq!(quote.symbol, "");
}

#[test]
fn empty_payload_gives_defaults() {
    let quote = decode_payload(&[]).unwrap();
    assert_eq!(quote.symbol, "");
    assert_eq!(quote.session, TradingSession::PreMarket);
    assert_eq!(quote.quote_type, QuoteType::Unspecified);
}

#[test]
fn malformed_base64_is_envelope_error() {
    assert_eq!(decode_text("not base64!!"), Err(DecodeError::Envelope));
}

#[test]
fn truncated_payload_is_payload_error() {
    let bytes = sample("AAPL", 1, 8).encode();
    assert_eq!(decode_payload(&bytes[..bytes.len() - 1]), Err(DecodeError::Payload));
    assert_eq!(decode_payload(&[0x0A, 0x05, b'A']), Err(DecodeError::Payload));
    assert_eq!(decode_text(&base64::encode([0x15, 0x00])), Err(DecodeError::Payload));
}

#[test]
fn wrong_wire_type_is_payload_error() {
    // field 1 (symbol) sent as a varint
    assert_eq!(decode_payload(&[0x08, 0x01]), Err(DecodeError::Payload));
    // wire type 3 (group) is not accepted
    assert_eq!(decode_payload(&[0x0B]), Err(DecodeError::Payload));
    // field number zero
    assert_eq!(decode_payload(&[0x00, 0x01]), Err(DecodeError::Payload));
}

#[test]
fn overlong_varint_is_payload_error() {
    let bytes: Vec<u8> = vec![0x18, 0xFF, 0xFF, 0xFF, 0xFF, 0xFF, 0xFF, 0xFF, 0xFF, 0xFF, 0x02];
    assert_eq!(decode_payload(&bytes), Err(DecodeError::Payload));
    let eleven: Vec<u8> = vec![0x18, 0x80, 0x80, 0x80, 0x80, 0x80, 0x80, 0x80, 0x80, 0x80, 0x80, 0x00];
    assert_eq!(decode_payload(&eleven), Err(DecodeError::Payload));
    let largest: Vec<u8> = vec![0x18, 0xFF, 0xFF, 0xFF, 0xFF, 0xFF, 0xFF, 0xFF, 0xFF, 0xFF, 0x01];
    assert_eq!(decode_payload(&largest).unwrap().timestamp, i64::MIN);
}

#[test]
fn invalid_utf8_symbol_is_payload_error() {
    assert_eq!(decode_payload(&[0x0A, 0x01, 0xFF]), Err(DecodeError::Payload));
}

#[test]
fn zigzag_values() {
    assert_eq!(zigzag_decode(0), 0);
    assert_eq!(zigzag_decode(1), -1);
    assert_eq!(zigzag_decode(2), 1);
    assert_eq!(zigzag_decode(3), -2);
    assert_eq!(zigzag_decode(u64::MAX), i64::MIN);
    assert_eq!(zigzag_decode(u64::MAX - 1), i64::MAX);
    assert_eq!(zigzag_encode_i64(-2), 3);
    assert_eq!(zigzag_encode_i64(i64::MAX), u64::MAX - 1);
}

#[test]
fn encoded_bytes_are_exact() {
    let data = PricingData {
        id: "A".to_string(),
        price_bits: 0x3F80_0000,
        time: -1,
        quote_type: 9,
        market_hours: 0,
        day_volume: 150,
    };
    assert_eq!(
        data.encode(),
        vec![0x0A, 0x01, b'A', 0x15, 0x00, 0x00, 0x80, 0x3F, 0x18, 0x01, 0x30, 0x09, 0x38, 0x00, 0x48, 0xAC, 0x02]
    );
}
