use vstd::prelude::*;

verus! {

/// Raw market-hours code of the feed: trading before the regular session.
pub const MARKET_HOURS_PRE: u64 = 0;

/// Raw market-hours code of the feed: the regular session.
pub const MARKET_HOURS_REGULAR: u64 = 1;

/// Raw market-hours code of the feed: trading after the regular session.
pub const MARKET_HOURS_POST: u64 = 2;

/// Raw quote-type code of the feed: no type given.
pub const QUOTE_TYPE_NONE: u64 = 0;

/// Raw quote-type code of the feed: an equity.
pub const QUOTE_TYPE_EQUITY: u64 = 8;

/// Raw quote-type code of the feed: an index.
pub const QUOTE_TYPE_INDEX: u64 = 9;

/// The trading session where a quote has occurred.
#[derive(Debug, Clone, Copy, PartialEq, Eq, Structural)]
pub enum TradingSession {
    /// The period of trading before the regular market session.
    PreMarket,
    /// The period of trading during the regular market session.
    Regular,
    /// The period of trading immediately after the regular market session.
    AfterHours,
    /// Any session the feed reports that is none of the above.
    Other,
}

/// The type of instrument a quote is for.
#[derive(Debug, Clone, Copy, PartialEq, Eq, Structural)]
pub enum QuoteType {
    /// The feed gave no type.
    Unspecified,
    Equity,
    Index,
    Other,
}

/// The session that a raw market-hours code stands for; unknown codes are `Other`.
pub open spec fn session_of(code: u64) -> TradingSession {
    if code == MARKET_HOURS_PRE {
        TradingSession::PreMarket
    } else if code == MARKET_HOURS_REGULAR {
        TradingSession::Regular
    } else if code == MARKET_HOURS_POST {
        TradingSession::AfterHours
    } else {
        TradingSession::Other
    }
}

/// The quote type that a raw quote-type code stands for; unknown codes are `Other`.
pub open spec fn quote_type_of(code: u64) -> QuoteType {
    if code == QUOTE_TYPE_NONE {
        QuoteType::Unspecified
    } else if code == QUOTE_TYPE_EQUITY {
        QuoteType::Equity
    } else if code == QUOTE_TYPE_INDEX {
        QuoteType::Index
    } else {
        QuoteType::Other
    }
}

impl TradingSession {
    /// Maps the feed's market-hours code; never fails.
    pub fn from_pd(code: u64) -> (r: TradingSession)
        ensures
            r == session_of(code),
    {
        if code == MARKET_HOURS_PRE {
            TradingSession::PreMarket
        } else if code == MARKET_HOURS_REGULAR {
            TradingSession::Regular
        } else if code == MARKET_HOURS_POST {
            TradingSession::AfterHours
        } else {
            TradingSession::Other
        }
    }
}

impl QuoteType {
    /// Maps the feed's quote-type code; never fails.
    pub fn from_pd(code: u64) -> (r: QuoteType)
        ensures
            r == quote_type_of(code),
    {
        if code == QUOTE_TYPE_NONE {
            QuoteType::Unspecified
        } else if code == QUOTE_TYPE_EQUITY {
            QuoteType::Equity
        } else if code == QUOTE_TYPE_INDEX {
            QuoteType::Index
        } else {
            QuoteType::Other
        }
    }
}

/// Maps the feed's market-hours code to the public session vocabulary.
pub fn convert_session(code: u64) -> (r: TradingSession)
    ensures
        r == session_of(code),
{
    TradingSession::from_pd(code)
}

/// Every code outside the known market-hours set maps to `Other`.
pub proof fn lemma_unknown_session_is_other(code: u64)
    requires
        code != MARKET_HOURS_PRE,
        code != MARKET_HOURS_REGULAR,
        code != MARKET_HOURS_POST,
    ensures
        session_of(code) == TradingSession::Other,
{
}

/// Every code outside the known quote-type set maps to `Other`.
pub proof fn lemma_unknown_quote_type_is_other(code: u64)
    requires
        code != QUOTE_TYPE_NONE,
        code != QUOTE_TYPE_EQUITY,
        code != QUOTE_TYPE_INDEX,
    ensures
        quote_type_of(code) == QuoteType::Other,
{
}

/// A symbol's quote at a point in time.
///
/// The price is kept as the bit pattern of the IEEE-754 single-precision
/// value that the feed sends (`f32::from_bits` recovers it).
#[derive(Debug, Clone, PartialEq)]
pub struct Quote {
    /// The symbol for the quote.
    pub symbol: String,
    /// The type of quote: index, equity, etc.
    pub quote_type: QuoteType,
    /// The epoch time of the quote, in the precision the feed sends.
    pub timestamp: i64,
    /// The trading session of the quote: pre market, regular hours, after hours.
    pub session: TradingSession,
    /// The bits of the single-precision price of the quote.
    pub price_bits: u32,
    /// The day's cumulative volume of the symbol.
    pub volume: i64,
}

} // verus!
