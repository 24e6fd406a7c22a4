//! Daily bars from the provider's chart columns. Prices are carried as the
//! bit patterns of the provider's double-precision values
//! (`f64::from_bits` recovers them); nothing here computes with them.
use vstd::prelude::*;
use vstd::string::StringExecFns;

use crate::error::{Error, InnerError};

verus! {

/// One bar of OHLCV data.
#[derive(Debug, Clone, Copy, PartialEq, Eq, Structural)]
pub struct Bar {
    /// Epoch time of the bar in milliseconds.
    pub timestamp: i64,
    pub open: u64,
    pub high: u64,
    pub low: u64,
    pub close: u64,
    pub volume: Option<u64>,
}

/// The provider's OHLCV columns; an entry is `None` where a value is missing.
#[derive(Debug, Clone, PartialEq)]
pub struct Ohlcv {
    pub opens: Vec<Option<u64>>,
    pub highs: Vec<Option<u64>>,
    pub lows: Vec<Option<u64>>,
    pub closes: Vec<Option<u64>>,
    pub volumes: Vec<Option<u64>>,
}

/// A dividend; its time in milliseconds once extracted.
#[derive(Debug, Clone, Copy, PartialEq, Eq, Structural)]
pub struct Dividend {
    pub amount: u64,
    pub timestamp: i64,
}

/// A split; its time in milliseconds once extracted.
#[derive(Debug, Clone, PartialEq)]
pub struct Split {
    pub denominator: u8,
    pub numerator: u8,
    pub split_ratio: String,
    pub timestamp: i64,
}

/// Milliseconds in a second.
pub const MILLIS_PER_SECOND: i64 = 1000;

/// Earliest time in seconds whose milliseconds fit in 64 bits.
pub const MIN_SECONDS: i64 = -9223372036854775;

/// Latest time in seconds whose milliseconds fit in 64 bits.
pub const MAX_SECONDS: i64 = 9223372036854775;

/// Whether a time in seconds can be written in milliseconds.
pub open spec fn millis_fit(t: i64) -> bool {
    i64::MIN <= t * MILLIS_PER_SECOND <= i64::MAX
}

/// Whether every column of `q` has one entry per time stamp.
pub open spec fn columns_line_up(n: int, q: Ohlcv) -> bool {
    &&& q.volumes@.len() == n
    &&& q.opens@.len() == n
    &&& q.highs@.len() == n
    &&& q.lows@.len() == n
    &&& q.closes@.len() == n
}

/// Whether day `i` has all four prices.
pub open spec fn complete_at(q: Ohlcv, i: int) -> bool {
    q.opens@[i] is Some && q.highs@[i] is Some && q.lows@[i] is Some && q.closes@[i] is Some
}

/// The bar of day `i`.
pub open spec fn bar_at(ts: Seq<i64>, q: Ohlcv, i: int) -> Bar {
    Bar {
        timestamp: (ts[i] * MILLIS_PER_SECOND) as i64,
        open: q.opens@[i]->Some_0,
        high: q.highs@[i]->Some_0,
        low: q.lows@[i]->Some_0,
        close: q.closes@[i]->Some_0,
        volume: q.volumes@[i],
    }
}

/// The bars of the first `n` days, skipping days with a missing price.
pub open spec fn bars_upto(ts: Seq<i64>, q: Ohlcv, n: int) -> Seq<Bar>
    decreases n,
{
    if n <= 0 {
        Seq::empty()
    } else if complete_at(q, n - 1) {
        bars_upto(ts, q, n - 1).push(bar_at(ts, q, n - 1))
    } else {
        bars_upto(ts, q, n - 1)
    }
}

/// Whether the chart columns can be made into bars: no data at all, or
/// time stamps and a first set of columns that line up, with every
/// complete day's time expressible in milliseconds.
pub open spec fn chart_is_usable(ts: Seq<i64>, quotes: Seq<Ohlcv>) -> bool {
    (ts.len() == 0 && quotes.len() == 0) || (ts.len() > 0 && quotes.len() > 0 && columns_line_up(
        ts.len() as int,
        quotes[0],
    ) && forall|i: int| 0 <= i < ts.len() && complete_at(quotes[0], i) ==> millis_fit(ts[i]))
}

/// The bars of the chart: one per complete day, in order.
pub open spec fn chart_bars(ts: Seq<i64>, quotes: Seq<Ohlcv>) -> Seq<Bar> {
    if quotes.len() == 0 {
        Seq::empty()
    } else {
        bars_upto(ts, quotes[0], ts.len() as int)
    }
}

fn missing(reason: &str) -> (e: Error)
    ensures
        e.0 is MissingData,
{
    Error(InnerError::MissingData { reason: String::from_str(reason) })
}

/// Makes the chart columns into bars, one per day that has all four prices,
/// in the order of the time stamps (seconds), with times in milliseconds.
/// Only the first set of columns is used. No data at all gives no bars;
/// columns that are missing or do not line up are `MissingData`.
pub fn aggregate_bars(timestamps: &Vec<i64>, quotes: &Vec<Ohlcv>) -> (r: Result<Vec<Bar>, Error>)
    ensures
        r is Ok <==> chart_is_usable(timestamps@, quotes@),
        r matches Ok(bars) ==> bars@ == chart_bars(timestamps@, quotes@),
        r matches Err(e) ==> e.0 is MissingData,
{
    let mut result: Vec<Bar> = Vec::new();
    if timestamps.len() == 0 && quotes.len() == 0 {
        assert(result@ =~= chart_bars(timestamps@, quotes@));
        return Ok(result);
    }
    if timestamps.len() == 0 {
        return Err(missing("no timestamps for OHLCV data"));
    }
    if quotes.len() == 0 {
        return Err(missing("no OHLCV data"));
    }
    let quote = &quotes[0];
    let n = timestamps.len();
    if n != quote.volumes.len() {
        return Err(missing("timestamps do not line up with OHLCV data"));
    }
    if n != quote.opens.len() {
        return Err(missing("'open' values do not line up the timestamps"));
    }
    if n != quote.highs.len() {
        return Err(missing("'high' values do not line up the timestamps"));
    }
    if n != quote.lows.len() {
        return Err(missing("'low' values do not line up the timestamps"));
    }
    if n != quote.closes.len() {
        return Err(missing("'close' values do not line up the timestamps"));
    }
    let mut i: usize = 0;
    while i < n
        invariant
            n == timestamps@.len(),
            quotes@.len() > 0,
            *quote == quotes@[0],
            columns_line_up(n as int, *quote),
            i <= n,
            result@ == bars_upto(timestamps@, *quote, i as int),
            forall|j: int| 0 <= j < i && complete_at(*quote, j) ==> millis_fit(timestamps@[j]),
        decreases n - i,
    {
        match (quote.opens[i], quote.highs[i], quote.lows[i], quote.closes[i]) {
            (Some(open), Some(high), Some(low), Some(close)) => {
                let t = timestamps[i];
                if t < MIN_SECONDS || t > MAX_SECONDS {
                    assert(complete_at(*quote, i as int) && !millis_fit(timestamps@[i as int]));
                    return Err(missing("timestamp out of range"));
                }
                result.push(
                    Bar {
                        timestamp: t * MILLIS_PER_SECOND,
                        open,
                        high,
                        low,
                        close,
                        volume: quote.volumes[i],
                    },
                );
            },
            _ => {},
        }
        i += 1;
    }
    Ok(result)
}

/// Writes the time of each event in milliseconds; `MissingData` where a
/// time does not fit.
pub fn extract_events(dividends: Vec<Dividend>, splits: Vec<Split>) -> (r: Result<
    (Vec<Dividend>, Vec<Split>),
    Error,
>)
    ensures
        r is Ok <==> (forall|i: int| 0 <= i < dividends@.len() ==> millis_fit(
            #[trigger] dividends@[i].timestamp,
        )) && (forall|i: int| 0 <= i < splits@.len() ==> millis_fit(#[trigger] splits@[i].timestamp)),
        r matches Ok((ds, ss)) ==> ds@.len() == dividends@.len() && ss@.len() == splits@.len() && (
        forall|i: int|
            0 <= i < ds@.len() ==> #[trigger] ds@[i] == (Dividend {
                timestamp: (dividends@[i].timestamp * MILLIS_PER_SECOND) as i64,
                ..dividends@[i]
            })) && (forall|i: int|
            0 <= i < ss@.len() ==> #[trigger] ss@[i] == (Split {
                timestamp: (splits@[i].timestamp * MILLIS_PER_SECOND) as i64,
                ..splits@[i]
            })),
        r matches Err(e) ==> e.0 is MissingData,
{
    let mut ds: Vec<Dividend> = Vec::new();
    let mut i: usize = 0;
    while i < dividends.len()
        invariant
            i <= dividends@.len(),
            ds@.len() == i,
            forall|j: int| 0 <= j < i ==> millis_fit(#[trigger] dividends@[j].timestamp),
            forall|j: int|
                0 <= j < i ==> #[trigger] ds@[j] == (Dividend {
                    timestamp: (dividends@[j].timestamp * MILLIS_PER_SECOND) as i64,
                    ..dividends@[j]
                }),
        decreases dividends@.len() - i,
    {
        let d = dividends[i];
        if d.timestamp < MIN_SECONDS || d.timestamp > MAX_SECONDS {
            assert(!millis_fit(dividends@[i as int].timestamp));
            return Err(missing("event time out of range"));
        }
        ds.push(Dividend { amount: d.amount, timestamp: d.timestamp * MILLIS_PER_SECOND });
        i += 1;
    }
    let mut ss: Vec<Split> = Vec::new();
    let mut k: usize = 0;
    while k < splits.len()
        invariant
            k <= splits@.len(),
            ss@.len() == k,
            forall|j: int| 0 <= j < k ==> millis_fit(#[trigger] splits@[j].timestamp),
            forall|j: int|
                0 <= j < k ==> #[trigger] ss@[j] == (Split {
                    timestamp: (splits@[j].timestamp * MILLIS_PER_SECOND) as i64,
                    ..splits@[j]
                }),
        decreases splits@.len() - k,
    {
        let t = splits[k].timestamp;
        if t < MIN_SECONDS || t > MAX_SECONDS {
            assert(!millis_fit(splits@[k as int].timestamp));
            return Err(missing("event time out of range"));
        }
        let s = Split {
            denominator: splits[k].denominator,
            numerator: splits[k].numerator,
            split_ratio: splits[k].split_ratio.clone(),
            timestamp: t * MILLIS_PER_SECOND,
        };
        ss.push(s);
        k += 1;
    }
    Ok((ds, ss))
}

/// The failure that the chart service reports in place of a result.
#[derive(Debug, Clone, PartialEq)]
pub struct ChartFailure {
    pub code: String,
    pub description: String,
}

/// What a chart answer amounts to: its first result; where it has no
/// result block, the failure it reports (`ChartFailed`), or
/// `InternalLogic` where it reports none either; an empty result block is
/// `UnexpectedErrorYahoo`.
pub fn chart_outcome<T>(result: Option<Vec<T>>, failure: Option<ChartFailure>) -> (r: Result<T, Error>)
    ensures
        match result {
            Some(v) => if v@.len() > 0 {
                r == Ok::<T, Error>(v@[0])
            } else {
                r == Err::<T, Error>(Error(InnerError::UnexpectedErrorYahoo))
            },
            None => match failure {
                Some(f) => r == Err::<T, Error>(
                    Error(InnerError::ChartFailed { code: f.code, description: f.description }),
                ),
                None => r matches Err(e) && e.0 is InternalLogic,
            },
        },
{
    match result {
        Some(mut v) => {
            if v.len() > 0 {
                Ok(v.remove(0))
            } else {
                Err(Error(InnerError::UnexpectedErrorYahoo))
            }
        },
        None => match failure {
            Some(f) => Err(Error(InnerError::ChartFailed { code: f.code, description: f.description })),
            None => Err(
                Error(
                    InnerError::InternalLogic {
                        reason: String::from_str("error block exists without values"),
                    },
                ),
            ),
        },
    }
}

} // verus!
