//! The binary quote schema of the push feed and its decoder.
//!
//! A payload is a sequence of fields, each a varint tag (field number times
//! eight plus wire type) followed by a value of that wire type. The fields
//! that make up a quote are read; every other field is skipped by its wire
//! type. A field that is absent keeps its default (zero or empty), and a
//! field that occurs twice keeps its last value.
use vstd::prelude::*;
use vstd::slice::{slice_subrange, slice_to_vec};
use vstd::utf8::{decode_utf8, encode_utf8, valid_utf8};

use crate::quote::{quote_type_of, session_of, Quote, QuoteType, TradingSession};

verus! {

/// Longest varint that a 64-bit value needs.
pub const MAX_VARINT_LEN: usize = 10;

/// Wire type of a varint value.
pub const WIRE_VARINT: u64 = 0;

/// Wire type of an eight-byte value.
pub const WIRE_FIXED64: u64 = 1;

/// Wire type of a length-delimited value.
pub const WIRE_BYTES: u64 = 2;

/// Wire type of a four-byte value.
pub const WIRE_FIXED32: u64 = 5;

/// Field number of the symbol identifier (length-delimited text).
pub const FIELD_ID: u64 = 1;

/// Field number of the price (four-byte float).
pub const FIELD_PRICE: u64 = 2;

/// Field number of the epoch time (zigzag varint).
pub const FIELD_TIME: u64 = 3;

/// Field number of the quote-type code (varint).
pub const FIELD_QUOTE_TYPE: u64 = 6;

/// Field number of the market-hours code (varint).
pub const FIELD_MARKET_HOURS: u64 = 7;

/// Field number of the day volume (zigzag varint).
pub const FIELD_DAY_VOLUME: u64 = 9;

/// `128` to the power `k`.
pub open spec fn pow128(k: nat) -> nat
    decreases k,
{
    if k == 0 {
        1
    } else {
        128 * pow128((k - 1) as nat)
    }
}

/// The number carried by the low seven bits of the `k` bytes from `pos`,
/// least significant group first.
pub open spec fn groups_value(s: Seq<u8>, pos: int, k: nat) -> nat
    decreases k,
{
    if k == 0 {
        0
    } else {
        groups_value(s, pos, (k - 1) as nat) + ((s[pos + k - 1] % 128) as nat) * pow128(
            (k - 1) as nat,
        )
    }
}

/// Reads on from the varint at `pos`, whose first `k` bytes carried the
/// continuation bit: the value and the position after the varint.
pub open spec fn varint_scan(s: Seq<u8>, pos: int, k: nat) -> Option<(u64, int)>
    decreases MAX_VARINT_LEN - k,
{
    if k >= MAX_VARINT_LEN || pos < 0 || pos + k >= s.len() {
        None
    } else if s[pos + k] < 128 {
        let v = groups_value(s, pos, k + 1);
        if v <= u64::MAX {
            Some((v as u64, pos + k + 1))
        } else {
            None
        }
    } else {
        varint_scan(s, pos, k + 1)
    }
}

/// The varint at `pos`: at most ten bytes, the last one without the
/// continuation bit, and a value that fits in 64 bits.
pub open spec fn read_varint(s: Seq<u8>, pos: int) -> Option<(u64, int)> {
    varint_scan(s, pos, 0)
}

/// The signed number that a zigzag-encoded value stands for.
pub open spec fn zigzag(u: u64) -> int {
    if u % 2 == 0 {
        (u / 2) as int
    } else {
        -((u / 2) as int) - 1
    }
}

/// The four bytes from `pos` read as a little-endian number.
pub open spec fn le32(s: Seq<u8>, pos: int) -> u32 {
    (s[pos] as int + 256 * (s[pos + 1] as int) + 65536 * (s[pos + 2] as int) + 16777216 * (s[pos
        + 3] as int)) as u32
}

/// One field value as the wire carries it.
#[derive(Debug, Clone, Copy, PartialEq, Eq, Structural)]
pub enum WireValue {
    Varint(u64),
    Fixed64,
    Bytes(usize, usize),
    Fixed32(u32),
}

/// The value of wire type `wire` at `pos`, and the position after it.
pub open spec fn read_value(s: Seq<u8>, pos: int, wire: u64) -> Option<(WireValue, int)> {
    if wire == WIRE_VARINT {
        match read_varint(s, pos) {
            Some((v, e)) => Some((WireValue::Varint(v), e)),
            None => None,
        }
    } else if wire == WIRE_FIXED64 {
        if 0 <= pos && pos + 8 <= s.len() {
            Some((WireValue::Fixed64, pos + 8))
        } else {
            None
        }
    } else if wire == WIRE_BYTES {
        match read_varint(s, pos) {
            Some((n, e)) => if e + n <= s.len() {
                Some((WireValue::Bytes(e as usize, (e + n) as usize), e + n))
            } else {
                None
            },
            None => None,
        }
    } else if wire == WIRE_FIXED32 {
        if 0 <= pos && pos + 4 <= s.len() {
            Some((WireValue::Fixed32(le32(s, pos)), pos + 4))
        } else {
            None
        }
    } else {
        None
    }
}

/// The fields of a pricing payload: the symbol as its UTF-8 bytes, the raw
/// codes, and the numbers as the schema gives them.
pub struct PricingFields {
    pub id: Seq<u8>,
    pub price_bits: u32,
    pub time: int,
    pub quote_type: u64,
    pub market_hours: u64,
    pub day_volume: int,
}

/// The fields of a payload that holds none.
pub open spec fn default_fields() -> PricingFields {
    PricingFields {
        id: Seq::empty(),
        price_bits: 0,
        time: 0,
        quote_type: 0,
        market_hours: 0,
        day_volume: 0,
    }
}

/// Records field `field` with value `v`; `None` where a schema field has
/// another wire type or the field number is zero.
pub open spec fn apply_field(f: PricingFields, s: Seq<u8>, field: u64, v: WireValue) -> Option<
    PricingFields,
> {
    if field == 0 {
        None
    } else if field == FIELD_ID {
        match v {
            WireValue::Bytes(a, b) => Some(PricingFields { id: s.subrange(a as int, b as int), ..f }),
            _ => None,
        }
    } else if field == FIELD_PRICE {
        match v {
            WireValue::Fixed32(x) => Some(PricingFields { price_bits: x, ..f }),
            _ => None,
        }
    } else if field == FIELD_TIME {
        match v {
            WireValue::Varint(u) => Some(PricingFields { time: zigzag(u), ..f }),
            _ => None,
        }
    } else if field == FIELD_QUOTE_TYPE {
        match v {
            WireValue::Varint(u) => Some(PricingFields { quote_type: u, ..f }),
            _ => None,
        }
    } else if field == FIELD_MARKET_HOURS {
        match v {
            WireValue::Varint(u) => Some(PricingFields { market_hours: u, ..f }),
            _ => None,
        }
    } else if field == FIELD_DAY_VOLUME {
        match v {
            WireValue::Varint(u) => Some(PricingFields { day_volume: zigzag(u), ..f }),
            _ => None,
        }
    } else {
        Some(f)
    }
}

/// Reads the fields from `pos` to the end of `s` on top of `f`.
pub open spec fn parse_fields(s: Seq<u8>, pos: int, f: PricingFields) -> Option<PricingFields>
    decreases s.len() - pos,
{
    if pos < 0 {
        None
    } else if pos >= s.len() {
        Some(f)
    } else {
        match read_varint(s, pos) {
            None => None,
            Some((tag, p1)) => match read_value(s, p1, tag % 8) {
                None => None,
                Some((v, p2)) => if p2 <= pos || p2 > s.len() {
                    None
                } else {
                    match apply_field(f, s, tag / 8, v) {
                        None => None,
                        Some(g) => parse_fields(s, p2, g),
                    }
                },
            },
        }
    }
}

/// The fields of payload `s`, or `None` where `s` does not follow the schema.
pub open spec fn parse_pricing(s: Seq<u8>) -> Option<PricingFields> {
    parse_fields(s, 0, default_fields())
}

proof fn lemma_groups_value_bound(s: Seq<u8>, pos: int, k: nat)
    ensures
        groups_value(s, pos, k) < pow128(k),
    decreases k,
{
    if k > 0 {
        let j = (k - 1) as nat;
        lemma_groups_value_bound(s, pos, j);
        let g = (s[pos + k - 1] % 128) as nat;
        assert(g * pow128(j) <= 127 * pow128(j)) by (nonlinear_arith)
            requires
                g <= 127,
        ;
    }
}

/// Reads the varint at `pos`.
pub fn read_varint_at(buf: &[u8], pos: usize) -> (r: Option<(u64, usize)>)
    ensures
        match r {
            Some((v, e)) => read_varint(buf@, pos as int) == Some((v, e as int)),
            None => read_varint(buf@, pos as int) is None,
        },
{
    if pos > buf.len() {
        return None;
    }
    proof {
        reveal_with_fuel(pow128, 10);
    }
    let mut acc: u64 = 0;
    let mut mult: u64 = 1;
    let mut k: usize = 0;
    while k < MAX_VARINT_LEN
        invariant
            k <= MAX_VARINT_LEN,
            pos <= buf@.len(),
            acc == groups_value(buf@, pos as int, k as nat),
            mult == pow128(k as nat),
            k <= 9 ==> mult <= pow128(9),
            pow128(9) == 0x8000_0000_0000_0000,
            varint_scan(buf@, pos as int, 0) == varint_scan(buf@, pos as int, k as nat),
        decreases MAX_VARINT_LEN - k,
    {
        if k >= buf.len() - pos {
            return None;
        }
        let b = buf[pos + k];
        let low = (b % 128) as u64;
        proof {
            lemma_groups_value_bound(buf@, pos as int, k as nat);
            assert(groups_value(buf@, pos as int, (k + 1) as nat) == acc + low * mult);
        }
        if b < 128 {
            if k == 9 && low > 1 {
                proof {
                    assert(low * mult >= 2 * mult) by (nonlinear_arith)
                        requires
                            low >= 2,
                    ;
                }
                return None;
            }
            proof {
                if k < 9 {
                    lemma_pow128_mono(k as nat, 8);
                    assert(acc + low * mult < 128 * mult) by (nonlinear_arith)
                        requires
                            acc < mult,
                            low <= 127,
                    ;
                } else {
                    assert(low * mult <= mult) by (nonlinear_arith)
                        requires
                            low <= 1,
                    ;
                }
            }
            return Some((acc + low * mult, pos + k + 1));
        }
        if k == 9 {
            assert(varint_scan(buf@, pos as int, 10) is None);
            return None;
        }
        proof {
            lemma_pow128_mono(k as nat, 8);
            assert(acc + low * mult < 128 * mult) by (nonlinear_arith)
                requires
                    acc < mult,
                    low <= 127,
            ;
        }
        acc = acc + low * mult;
        mult = mult * 128;
        k += 1;
    }
    None
}

proof fn lemma_pow128_mono(a: nat, b: nat)
    requires
        a <= b,
    ensures
        pow128(a) <= pow128(b),
    decreases b - a,
{
    if a < b {
        lemma_pow128_mono(a, (b - 1) as nat);
    }
}

/// Why a frame could not be decoded into a quote.
#[derive(Debug, Clone, Copy, PartialEq, Eq, Structural)]
pub enum DecodeError {
    /// The text of the frame is not valid base64.
    Envelope,
    /// The payload does not follow the binary quote schema.
    Payload,
}

/// The signed number that a zigzag-encoded value stands for.
pub fn zigzag_decode(u: u64) -> (r: i64)
    ensures
        r as int == zigzag(u),
{
    let half = u / 2;
    if u % 2 == 0 {
        half as i64
    } else {
        -(half as i64) - 1
    }
}

/// The four bytes from `pos` read as a little-endian number.
fn read_le32(buf: &[u8], pos: usize) -> (r: u32)
    requires
        pos + 4 <= buf@.len(),
    ensures
        r == le32(buf@, pos as int),
{
    buf[pos] as u32 + 256 * (buf[pos + 1] as u32) + 65536 * (buf[pos + 2] as u32) + 16777216 * (
    buf[pos + 3] as u32)
}

/// Reads the value of wire type `wire` at `pos`.
fn read_value_at(buf: &[u8], pos: usize, wire: u64) -> (r: Option<(WireValue, usize)>)
    ensures
        match r {
            Some((v, e)) => read_value(buf@, pos as int, wire) == Some((v, e as int)),
            None => read_value(buf@, pos as int, wire) is None,
        },
        r matches Some((WireValue::Bytes(a, b), _)) ==> a <= b <= buf@.len(),
{
    if wire == WIRE_VARINT {
        match read_varint_at(buf, pos) {
            Some((v, e)) => Some((WireValue::Varint(v), e)),
            None => None,
        }
    } else if wire == WIRE_FIXED64 {
        if pos <= buf.len() && 8 <= buf.len() - pos {
            Some((WireValue::Fixed64, pos + 8))
        } else {
            None
        }
    } else if wire == WIRE_BYTES {
        match read_varint_at(buf, pos) {
            Some((n, e)) => {
                proof {
                    lemma_varint_end(buf@, pos as int);
                }
                if n <= (buf.len() - e) as u64 {
                    let end = e + n as usize;
                    Some((WireValue::Bytes(e, end), end))
                } else {
                    None
                }
            },
            None => None,
        }
    } else if wire == WIRE_FIXED32 {
        if pos <= buf.len() && 4 <= buf.len() - pos {
            Some((WireValue::Fixed32(read_le32(buf, pos)), pos + 4))
        } else {
            None
        }
    } else {
        None
    }
}

proof fn lemma_varint_scan_end(s: Seq<u8>, pos: int, k: nat)
    ensures
        varint_scan(s, pos, k) matches Some((v, e)) ==> pos + k < e <= s.len(),
    decreases MAX_VARINT_LEN - k,
{
    if k < MAX_VARINT_LEN && pos >= 0 && pos + k < s.len() && s[pos + k] >= 128 {
        lemma_varint_scan_end(s, pos, k + 1);
    }
}

/// A varint ends after its start and within the bytes.
proof fn lemma_varint_end(s: Seq<u8>, pos: int)
    ensures
        read_varint(s, pos) matches Some((v, e)) ==> pos < e <= s.len(),
{
    lemma_varint_scan_end(s, pos, 0);
}

/// The fields read so far, with the symbol as a range of the payload.
struct FieldsSoFar {
    id_start: usize,
    id_end: usize,
    price_bits: u32,
    time: i64,
    quote_type: u64,
    market_hours: u64,
    day_volume: i64,
}

impl FieldsSoFar {
    spec fn fits(&self, s: Seq<u8>) -> bool {
        self.id_start <= self.id_end <= s.len()
    }

    spec fn model(&self, s: Seq<u8>) -> PricingFields {
        PricingFields {
            id: s.subrange(self.id_start as int, self.id_end as int),
            price_bits: self.price_bits,
            time: self.time as int,
            quote_type: self.quote_type,
            market_hours: self.market_hours,
            day_volume: self.day_volume as int,
        }
    }
}

/// Records one field in `acc`; false where `apply_field` fails.
fn apply_field_to(acc: &mut FieldsSoFar, buf: &[u8], field: u64, v: WireValue) -> (ok: bool)
    requires
        old(acc).fits(buf@),
        v matches WireValue::Bytes(a, b) ==> a <= b <= buf@.len(),
    ensures
        final(acc).fits(buf@),
        match apply_field(old(acc).model(buf@), buf@, field, v) {
            Some(g) => ok && final(acc).model(buf@) == g,
            None => !ok,
        },
{
    if field == 0 {
        false
    } else if field == FIELD_ID {
        match v {
            WireValue::Bytes(a, b) => {
                acc.id_start = a;
                acc.id_end = b;
                true
            },
            _ => false,
        }
    } else if field == FIELD_PRICE {
        match v {
            WireValue::Fixed32(x) => {
                acc.price_bits = x;
                true
            },
            _ => false,
        }
    } else if field == FIELD_TIME {
        match v {
            WireValue::Varint(u) => {
                acc.time = zigzag_decode(u);
                true
            },
            _ => false,
        }
    } else if field == FIELD_QUOTE_TYPE {
        match v {
            WireValue::Varint(u) => {
                acc.quote_type = u;
                true
            },
            _ => false,
        }
    } else if field == FIELD_MARKET_HOURS {
        match v {
            WireValue::Varint(u) => {
                acc.market_hours = u;
                true
            },
            _ => false,
        }
    } else if field == FIELD_DAY_VOLUME {
        match v {
            WireValue::Varint(u) => {
                acc.day_volume = zigzag_decode(u);
                true
            },
            _ => false,
        }
    } else {
        true
    }
}

/// Reads the fields of a whole payload.
fn parse_payload(buf: &[u8]) -> (r: Option<FieldsSoFar>)
    ensures
        match r {
            Some(acc) => acc.fits(buf@) && parse_pricing(buf@) == Some(acc.model(buf@)),
            None => parse_pricing(buf@) is None,
        },
{
    let mut acc = FieldsSoFar {
        id_start: 0,
        id_end: 0,
        price_bits: 0,
        time: 0,
        quote_type: 0,
        market_hours: 0,
        day_volume: 0,
    };
    assert(acc.model(buf@).id =~= Seq::<u8>::empty());
    let mut pos: usize = 0;
    while pos < buf.len()
        invariant
            pos <= buf@.len(),
            acc.fits(buf@),
            parse_pricing(buf@) == parse_fields(buf@, pos as int, acc.model(buf@)),
        decreases buf@.len() - pos,
    {
        let (tag, p1) = match read_varint_at(buf, pos) {
            Some(t) => t,
            None => return None,
        };
        proof {
            lemma_varint_end(buf@, pos as int);
        }
        let (v, p2) = match read_value_at(buf, p1, tag % 8) {
            Some(t) => t,
            None => return None,
        };
        if p2 <= pos || p2 > buf.len() {
            return None;
        }
        if !apply_field_to(&mut acc, buf, tag / 8, v) {
            return None;
        }
        pos = p2;
    }
    Some(acc)
}

/// The record that the binary quote schema carries, with the symbol as text
/// and the session and type as the feed's raw codes.
#[derive(Debug, Clone, PartialEq)]
pub struct PricingData {
    pub id: String,
    pub price_bits: u32,
    pub time: i64,
    pub quote_type: u64,
    pub market_hours: u64,
    pub day_volume: i64,
}

impl View for PricingData {
    type V = PricingFields;

    open spec fn view(&self) -> PricingFields {
        PricingFields {
            id: encode_utf8(self.id@),
            price_bits: self.price_bits,
            time: self.time as int,
            quote_type: self.quote_type,
            market_hours: self.market_hours,
            day_volume: self.day_volume as int,
        }
    }
}

/// `r` is what decoding payload `s` gives: the record that the schema
/// reads from it, or `Payload` where it does not follow the schema or the
/// symbol is not UTF-8.
pub open spec fn decodes_to(s: Seq<u8>, r: Result<PricingData, DecodeError>) -> bool {
    match parse_pricing(s) {
        Some(f) => if valid_utf8(f.id) {
            r matches Ok(d) && d@ == f
        } else {
            r == Err::<PricingData, DecodeError>(DecodeError::Payload)
        },
        None => r == Err::<PricingData, DecodeError>(DecodeError::Payload),
    }
}

/// Relies on `String::from_utf8`: it succeeds exactly on valid UTF-8 and
/// then holds the characters that the bytes encode.
#[verifier::external_body]
pub(crate) fn string_from_utf8(b: Vec<u8>) -> (r: Option<String>)
    ensures
        r is Some <==> valid_utf8(b@),
        r matches Some(t) ==> t@ == decode_utf8(b@),
{
    String::from_utf8(b).ok()
}

impl PricingData {
    /// Decodes a binary payload against the quote schema.
    pub fn decode(buf: &[u8]) -> (r: Result<PricingData, DecodeError>)
        ensures
            decodes_to(buf@, r),
    {
        let acc = match parse_payload(buf) {
            Some(acc) => acc,
            None => return Err(DecodeError::Payload),
        };
        let id_bytes = slice_to_vec(slice_subrange(buf, acc.id_start, acc.id_end));
        match string_from_utf8(id_bytes) {
            Some(id) => {
                proof {
                    vstd::utf8::decode_utf8_encode_utf8(acc.model(buf@).id);
                }
                Ok(
                    PricingData {
                        id,
                        price_bits: acc.price_bits,
                        time: acc.time,
                        quote_type: acc.quote_type,
                        market_hours: acc.market_hours,
                        day_volume: acc.day_volume,
                    },
                )
            },
            None => Err(DecodeError::Payload),
        }
    }
}

/// `q` carries the fields `f` of a payload in the public vocabulary.
pub open spec fn quote_of(f: PricingFields, q: Quote) -> bool {
    &&& encode_utf8(q.symbol@) == f.id
    &&& q.quote_type == quote_type_of(f.quote_type)
    &&& q.timestamp as int == f.time
    &&& q.session == session_of(f.market_hours)
    &&& q.price_bits == f.price_bits
    &&& q.volume as int == f.day_volume
}

/// `r` is what decoding payload `s` into a quote gives.
pub open spec fn quote_decodes_to(s: Seq<u8>, r: Result<Quote, DecodeError>) -> bool {
    match parse_pricing(s) {
        Some(f) => if valid_utf8(f.id) {
            r matches Ok(q) && quote_of(f, q)
        } else {
            r == Err::<Quote, DecodeError>(DecodeError::Payload)
        },
        None => r == Err::<Quote, DecodeError>(DecodeError::Payload),
    }
}

/// The bytes that `text` decodes to in the standard base64 alphabet
/// (padding optional), or `None` where `text` is not valid base64.
pub uninterp spec fn base64_decoded(text: Seq<char>) -> Option<Seq<u8>>;

/// `r` is what decoding the base64 text `t` into a quote gives.
pub open spec fn text_decodes_to(t: Seq<char>, r: Result<Quote, DecodeError>) -> bool {
    match base64_decoded(t) {
        Some(b) => quote_decodes_to(b, r),
        None => r == Err::<Quote, DecodeError>(DecodeError::Envelope),
    }
}

/// Relies on `base64::decode`: standard alphabet, padding optional; an error
/// exactly where the text is not valid base64.
#[verifier::external_body]
fn base64_decode(text: &str) -> (r: Option<Vec<u8>>)
    ensures
        match base64_decoded(text@) {
            Some(b) => r matches Some(v) && v@ == b,
            None => r is None,
        },
{
    base64::decode(text).ok()
}

impl Quote {
    /// The quote that a decoded record stands for: the codes are mapped to
    /// the public vocabulary, unknown ones to `Other`.
    pub fn from_pricing(d: PricingData) -> (q: Quote)
        ensures
            quote_of(d@, q),
    {
        Quote {
            quote_type: QuoteType::from_pd(d.quote_type),
            session: TradingSession::from_pd(d.market_hours),
            symbol: d.id,
            timestamp: d.time,
            price_bits: d.price_bits,
            volume: d.day_volume,
        }
    }
}

/// Decodes a binary payload (a binary frame) into a quote.
pub fn decode_payload(buf: &[u8]) -> (r: Result<Quote, DecodeError>)
    ensures
        quote_decodes_to(buf@, r),
{
    match PricingData::decode(buf) {
        Ok(d) => Ok(Quote::from_pricing(d)),
        Err(e) => Err(e),
    }
}

/// Decodes a text frame: a base64 envelope around a binary payload.
pub fn decode_text(text: &str) -> (r: Result<Quote, DecodeError>)
    ensures
        text_decodes_to(text@, r),
{
    match base64_decode(text) {
        Some(bytes) => decode_payload(bytes.as_slice()),
        None => Err(DecodeError::Envelope),
    }
}

/// The varint bytes of `v`: seven bits per byte, least significant group
/// first, the continuation bit on all but the last.
pub open spec fn varint_bytes(v: nat) -> Seq<u8>
    decreases v,
{
    if v < 128 {
        seq![v as u8]
    } else {
        seq![(v % 128 + 128) as u8] + varint_bytes(v / 128)
    }
}

/// The zigzag encoding of a signed number: `0, -1, 1, -2, ...` become `0, 1, 2, 3, ...`.
pub open spec fn zigzag_encode(n: int) -> nat {
    if n >= 0 {
        (2 * n) as nat
    } else {
        (-2 * n - 1) as nat
    }
}

/// The four little-endian bytes of `x`.
pub open spec fn le32_bytes(x: u32) -> Seq<u8> {
    seq![(x % 256) as u8, ((x / 256) % 256) as u8, ((x / 65536) % 256) as u8, (x / 16777216) as u8]
}

/// The one-byte tag of a field of the schema.
pub open spec fn tag_byte(field: u64, wire: u64) -> u8 {
    (field * 8 + wire) as u8
}

/// A varint field: its tag, then its value.
pub open spec fn varint_field(field: u64, u: nat) -> Seq<u8> {
    seq![tag_byte(field, WIRE_VARINT)] + varint_bytes(u)
}

/// The payload that carries `f`: every schema field once, in field order.
pub open spec fn encode_fields(f: PricingFields) -> Seq<u8> {
    id_field(f.id) + price_field(f.price_bits) + varint_field(FIELD_TIME, zigzag_encode(f.time)) + varint_field(
        FIELD_QUOTE_TYPE,
        f.quote_type as nat,
    ) + varint_field(FIELD_MARKET_HOURS, f.market_hours as nat) + varint_field(
        FIELD_DAY_VOLUME,
        zigzag_encode(f.day_volume),
    )
}

proof fn lemma_varint_bytes_len(v: nat, n: nat)
    requires
        n >= 1,
        v < pow128(n),
    ensures
        varint_bytes(v).len() <= n,
    decreases v,
{
    if v >= 128 {
        assert(n >= 2) by {
            if n == 1 {
                reveal_with_fuel(pow128, 2);
            }
        }
        let m = (n - 1) as nat;
        assert(v / 128 < pow128(m)) by (nonlinear_arith)
            requires
                v < 128 * pow128(m),
        ;
        lemma_varint_bytes_len(v / 128, m);
    }
}

/// The varint bytes of a 64-bit value take at most ten bytes.
proof fn lemma_varint_bytes_short(v: u64)
    ensures
        1 <= varint_bytes(v as nat).len() <= MAX_VARINT_LEN,
{
    reveal_with_fuel(pow128, 11);
    lemma_varint_bytes_len(v as nat, 10);
}

proof fn lemma_varint_scan_reads(s: Seq<u8>, pos: int, k: nat, v: nat)
    requires
        0 <= pos,
        k + varint_bytes(v).len() <= MAX_VARINT_LEN,
        pos + k + varint_bytes(v).len() <= s.len(),
        s.subrange(pos + k, pos + k + varint_bytes(v).len()) == varint_bytes(v),
        groups_value(s, pos, k) + v * pow128(k) <= u64::MAX,
    ensures
        varint_scan(s, pos, k) == Some(
            (
                (groups_value(s, pos, k) + v * pow128(k)) as u64,
                pos + k + varint_bytes(v).len(),
            ),
        ),
    decreases v,
{
    let vb = varint_bytes(v);
    assert(s[pos + k] == s.subrange(pos + k, pos + k + vb.len())[0]);
    let g = groups_value(s, pos, k);
    let p = pow128(k);
    if v < 128 {
        assert(s[pos + k] == v);
    } else {
        let w = v / 128;
        let wb = varint_bytes(w);
        assert(s[pos + k] == v % 128 + 128);
        assert(vb == seq![(v % 128 + 128) as u8] + wb);
        assert(s.subrange(pos + k + 1, pos + k + 1 + wb.len()) =~= wb) by {
            assert forall|j: int| 0 <= j < wb.len() implies s.subrange(
                pos + k + 1,
                pos + k + 1 + wb.len(),
            )[j] == wb[j] by {
                assert(s.subrange(pos + k, pos + k + vb.len())[j + 1] == vb[j + 1]);
            }
        }
        assert(groups_value(s, pos, k + 1) == g + (v % 128) * p);
        assert(g + (v % 128) * p + w * (128 * p) == g + v * p) by (nonlinear_arith)
            requires
                v == 128 * w + v % 128,
        ;
        lemma_varint_scan_reads(s, pos, k + 1, w);
    }
}

/// The varint bytes of `v` read back as `v`, wherever they stand.
proof fn lemma_read_varint_bytes(s: Seq<u8>, pos: int, v: u64)
    requires
        0 <= pos,
        pos + varint_bytes(v as nat).len() <= s.len(),
        s.subrange(pos, pos + varint_bytes(v as nat).len()) == varint_bytes(v as nat),
    ensures
        read_varint(s, pos) == Some((v, pos + varint_bytes(v as nat).len())),
{
    lemma_varint_bytes_short(v);
    assert(pow128(0) == 1);
    assert(groups_value(s, pos, 0) == 0);
    lemma_varint_scan_reads(s, pos, 0, v as nat);
}

proof fn lemma_zigzag_round_trip(n: int)
    requires
        i64::MIN <= n <= i64::MAX,
    ensures
        zigzag_encode(n) <= u64::MAX,
        zigzag(zigzag_encode(n) as u64) == n,
{
}

proof fn lemma_le32_round_trip(x: u32)
    ensures
        le32(le32_bytes(x), 0) == x,
{
    let b0 = x % 256;
    let a = x / 256;
    let b1 = a % 256;
    let c = a / 256;
    let b2 = c % 256;
    let b3 = c / 256;
    assert(x / 65536 == c);
    assert(x / 16777216 == b3);
    assert(b0 + 256 * b1 + 65536 * b2 + 16777216 * b3 == x);
}

/// Reading one varint field of `s = pre + varint_field(field, u) + post` at
/// the start of the field moves past it with the value recorded.
proof fn lemma_step_varint(s: Seq<u8>, pre: Seq<u8>, post: Seq<u8>, field: u64, u: u64, f: PricingFields)
    requires
        1 <= field < 16,
        s == pre + varint_field(field, u as nat) + post,
        apply_field(f, s, field, WireValue::Varint(u)) is Some,
    ensures
        parse_fields(s, pre.len() as int, f) == parse_fields(
            s,
            (pre.len() + varint_field(field, u as nat).len()) as int,
            apply_field(f, s, field, WireValue::Varint(u)).unwrap(),
        ),
{
    let chunk = varint_field(field, u as nat);
    let pos = pre.len() as int;
    let tag = tag_byte(field, WIRE_VARINT);
    let ub = varint_bytes(u as nat);
    lemma_varint_bytes_short(u);
    assert(s.subrange(pos, pos + 1) =~= varint_bytes(tag as nat));
    lemma_read_varint_bytes(s, pos, tag as u64);
    assert(s.subrange(pos + 1, pos + 1 + ub.len()) =~= ub);
    lemma_read_varint_bytes(s, pos + 1, u);
    assert((tag as u64) % 8 == WIRE_VARINT && (tag as u64) / 8 == field);
}

/// The symbol field: its tag, its length, its bytes.
pub open spec fn id_field(id: Seq<u8>) -> Seq<u8> {
    seq![tag_byte(FIELD_ID, WIRE_BYTES)] + varint_bytes(id.len()) + id
}

/// The price field: its tag and four bytes.
pub open spec fn price_field(x: u32) -> Seq<u8> {
    seq![tag_byte(FIELD_PRICE, WIRE_FIXED32)] + le32_bytes(x)
}

proof fn lemma_step_id(s: Seq<u8>, id: Seq<u8>, post: Seq<u8>, f: PricingFields)
    requires
        s == id_field(id) + post,
        id.len() <= u64::MAX,
        s.len() <= usize::MAX,
    ensures
        parse_fields(s, 0, f) == parse_fields(s, id_field(id).len() as int, PricingFields { id, ..f }),
{
    let n = id.len() as int;
    let nb = varint_bytes(n as nat);
    lemma_varint_bytes_short(n as u64);
    assert(s.subrange(0, 1) =~= varint_bytes(10));
    lemma_read_varint_bytes(s, 0, 10);
    assert(s.subrange(1, 1 + nb.len() as int) =~= nb);
    lemma_read_varint_bytes(s, 1, n as u64);
    let e = 1 + nb.len() as int;
    assert(s.subrange(e, e + n) =~= id);
}

proof fn lemma_step_price(s: Seq<u8>, pre: Seq<u8>, x: u32, post: Seq<u8>, f: PricingFields)
    requires
        s == pre + price_field(x) + post,
    ensures
        parse_fields(s, pre.len() as int, f) == parse_fields(
            s,
            pre.len() as int + 5,
            PricingFields { price_bits: x, ..f },
        ),
{
    let p = pre.len() as int;
    assert(s.subrange(p, p + 1) =~= varint_bytes(21));
    lemma_read_varint_bytes(s, p, 21);
    lemma_le32_round_trip(x);
    assert(le32(s, p + 1) == le32(le32_bytes(x), 0));
}

/// Decoding an encoded record gives it back: the payload that carries `f`
/// follows the schema and reads as `f`.
pub proof fn lemma_payload_round_trip(f: PricingFields)
    requires
        f.id.len() <= u64::MAX,
        f.id.len() + 64 <= usize::MAX,
        i64::MIN <= f.time <= i64::MAX,
        i64::MIN <= f.day_volume <= i64::MAX,
    ensures
        parse_pricing(encode_fields(f)) == Some(f),
{
    let s = encode_fields(f);
    let a = id_field(f.id);
    let b = price_field(f.price_bits);
    let c = varint_field(FIELD_TIME, zigzag_encode(f.time));
    let d = varint_field(FIELD_QUOTE_TYPE, f.quote_type as nat);
    let e = varint_field(FIELD_MARKET_HOURS, f.market_hours as nat);
    let g = varint_field(FIELD_DAY_VOLUME, zigzag_encode(f.day_volume));
    lemma_zigzag_round_trip(f.time);
    lemma_zigzag_round_trip(f.day_volume);
    lemma_varint_bytes_short(f.id.len() as u64);
    lemma_varint_bytes_short(zigzag_encode(f.time) as u64);
    lemma_varint_bytes_short(f.quote_type);
    lemma_varint_bytes_short(f.market_hours);
    lemma_varint_bytes_short(zigzag_encode(f.day_volume) as u64);
    assert(s =~= a + b + c + d + e + g);
    let f1 = PricingFields { id: f.id, ..default_fields() };
    assert(s =~= a + (b + c + d + e + g));
    lemma_step_id(s, f.id, b + c + d + e + g, default_fields());
    let f2 = PricingFields { price_bits: f.price_bits, ..f1 };
    assert(s =~= a + b + (c + d + e + g));
    lemma_step_price(s, a, f.price_bits, c + d + e + g, f1);
    let f3 = PricingFields { time: f.time, ..f2 };
    assert(s =~= (a + b) + c + (d + e + g));
    lemma_step_varint(s, a + b, d + e + g, FIELD_TIME, zigzag_encode(f.time) as u64, f2);
    let f4 = PricingFields { quote_type: f.quote_type, ..f3 };
    assert(s =~= (a + b + c) + d + (e + g));
    lemma_step_varint(s, a + b + c, e + g, FIELD_QUOTE_TYPE, f.quote_type, f3);
    let f5 = PricingFields { market_hours: f.market_hours, ..f4 };
    assert(s =~= (a + b + c + d) + e + g);
    lemma_step_varint(s, a + b + c + d, g, FIELD_MARKET_HOURS, f.market_hours, f4);
    let f6 = PricingFields { day_volume: f.day_volume, ..f5 };
    assert(s =~= (a + b + c + d + e) + g + Seq::<u8>::empty());
    lemma_step_varint(
        s,
        a + b + c + d + e,
        Seq::empty(),
        FIELD_DAY_VOLUME,
        zigzag_encode(f.day_volume) as u64,
        f5,
    );
    assert(f6 == f);
}

/// The record's payload as a text frame decodes to the record's quote:
/// decoding a payload that carries `d` gives `d` back, and a text frame
/// whose base64 envelope holds that payload gives the quote of `d`.
pub proof fn lemma_record_round_trip(d: PricingData)
    requires
        d@.id.len() + 64 <= usize::MAX,
    ensures
        forall|r: Result<PricingData, DecodeError>| #[trigger]
            decodes_to(encode_fields(d@), r) ==> (r matches Ok(e) && e@ == d@),
        forall|r: Result<Quote, DecodeError>| #[trigger]
            quote_decodes_to(encode_fields(d@), r) ==> (r matches Ok(q) && quote_of(d@, q)),
        forall|t: Seq<char>, r: Result<Quote, DecodeError>|
            base64_decoded(t) == Some(encode_fields(d@)) && #[trigger] text_decodes_to(t, r) ==> (
            r matches Ok(q) && quote_of(d@, q)),
{
    vstd::utf8::encode_utf8_valid_utf8(d.id@);
    lemma_payload_round_trip(d@);
}

/// Appends the varint bytes of `v`.
fn push_varint(out: &mut Vec<u8>, v: u64)
    ensures
        final(out)@ == old(out)@ + varint_bytes(v as nat),
{
    let ghost start = out@;
    let mut x = v;
    while x >= 128
        invariant
            out@ + varint_bytes(x as nat) == start + varint_bytes(v as nat),
        decreases x,
    {
        let ghost before = out@;
        out.push((x % 128 + 128) as u8);
        assert(varint_bytes(x as nat) == seq![(x % 128 + 128) as u8] + varint_bytes((x / 128) as nat));
        assert(out@ + varint_bytes((x / 128) as nat) =~= before + varint_bytes(x as nat));
        x = x / 128;
    }
    out.push(x as u8);
    assert(out@ =~= start + varint_bytes(v as nat));
}

/// The zigzag encoding of a signed number.
pub fn zigzag_encode_i64(n: i64) -> (r: u64)
    ensures
        r as nat == zigzag_encode(n as int),
{
    if n >= 0 {
        (n as u64) * 2
    } else {
        ((-(n + 1)) as u64) * 2 + 1
    }
}

impl PricingData {
    /// The payload that carries this record: every schema field once, in
    /// field order.
    pub fn encode(&self) -> (r: Vec<u8>)
        ensures
            r@ == encode_fields(self@),
    {
        let mut out: Vec<u8> = Vec::new();
        let id = self.id.as_str().as_bytes();
        out.push(tag_of(FIELD_ID, WIRE_BYTES));
        push_varint(&mut out, id.len() as u64);
        let ghost mid = out@;
        let mut i: usize = 0;
        while i < id.len()
            invariant
                i <= id@.len(),
                out@ == mid + id@.subrange(0, i as int),
            decreases id@.len() - i,
        {
            out.push(id[i]);
            assert(id@.subrange(0, i + 1) =~= id@.subrange(0, i as int).push(id@[i as int]));
            i += 1;
        }
        assert(id@.subrange(0, i as int) =~= id@);
        let x = self.price_bits;
        out.push(tag_of(FIELD_PRICE, WIRE_FIXED32));
        out.push((x % 256) as u8);
        out.push(((x / 256) % 256) as u8);
        out.push(((x / 65536) % 256) as u8);
        out.push((x / 16777216) as u8);
        out.push(tag_of(FIELD_TIME, WIRE_VARINT));
        push_varint(&mut out, zigzag_encode_i64(self.time));
        out.push(tag_of(FIELD_QUOTE_TYPE, WIRE_VARINT));
        push_varint(&mut out, self.quote_type);
        out.push(tag_of(FIELD_MARKET_HOURS, WIRE_VARINT));
        push_varint(&mut out, self.market_hours);
        out.push(tag_of(FIELD_DAY_VOLUME, WIRE_VARINT));
        push_varint(&mut out, zigzag_encode_i64(self.day_volume));
        assert(out@ =~= encode_fields(self@));
        out
    }
}

/// The one-byte tag of a schema field.
fn tag_of(field: u64, wire: u64) -> (r: u8)
    requires
        field < 16,
        wire < 8,
    ensures
        r == tag_byte(field, wire),
{
    (field * 8 + wire) as u8
}

} // verus!
