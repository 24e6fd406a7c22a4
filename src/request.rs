//! The rules of a chart request: which intervals and date ranges are
//! accepted, and the query parameters that ask for them.
use vstd::prelude::*;
use vstd::string::StringExecFns;

use crate::error::{Error, InnerError};
use crate::interval::{interval_code, spec_is_intraday, Interval};

verus! {

/// What a chart request covers.
#[derive(Debug, Clone, Copy, PartialEq, Eq, Structural)]
pub enum ChartPeriod {
    /// The named period that ends with the last market close.
    Range(Interval),
    /// From one epoch time to another, in seconds.
    Between(i64, i64),
}

/// A point in time as epoch seconds and the nanoseconds after them.
#[derive(Debug, Clone, Copy, PartialEq, Eq, Structural)]
pub struct Instant {
    pub secs: i64,
    pub nanos: u32,
}

/// Nanoseconds in a second.
pub const NANOS_PER_SECOND: i128 = 1_000_000_000;

/// The instant as nanoseconds since the epoch.
pub open spec fn total_nanos(t: Instant) -> int {
    t.secs * NANOS_PER_SECOND + t.nanos
}

/// A range is accepted when it spans at least one whole second.
pub open spec fn range_is_valid(start: Instant, end: Instant) -> bool {
    total_nanos(end) - total_nanos(start) >= NANOS_PER_SECOND
}

/// Daily requests refuse intraday intervals with `NoIntraday`.
pub fn check_interval(interval: Interval) -> (r: Result<ChartPeriod, Error>)
    ensures
        spec_is_intraday(interval) ==> r == Err::<ChartPeriod, Error>(
            Error(InnerError::NoIntraday { interval }),
        ),
        !spec_is_intraday(interval) ==> r == Ok::<ChartPeriod, Error>(ChartPeriod::Range(interval)),
{
    if interval.is_intraday() {
        Err(Error(InnerError::NoIntraday { interval }))
    } else {
        Ok(ChartPeriod::Range(interval))
    }
}

/// A range request needs its end at least a whole second after its start;
/// otherwise `InvalidStartDate`. The request covers the whole seconds.
pub fn check_range(start: Instant, end: Instant) -> (r: Result<ChartPeriod, Error>)
    ensures
        range_is_valid(start, end) ==> r == Ok::<ChartPeriod, Error>(
            ChartPeriod::Between(start.secs, end.secs),
        ),
        !range_is_valid(start, end) ==> r == Err::<ChartPeriod, Error>(
            Error(InnerError::InvalidStartDate),
        ),
{
    let s = start.secs as i128 * NANOS_PER_SECOND + start.nanos as i128;
    let e = end.secs as i128 * NANOS_PER_SECOND + end.nanos as i128;
    if e - s >= NANOS_PER_SECOND {
        Ok(ChartPeriod::Between(start.secs, end.secs))
    } else {
        Err(Error(InnerError::InvalidStartDate))
    }
}

/// The character of a decimal digit.
pub open spec fn digit_char(d: nat) -> char {
    seq!['0', '1', '2', '3', '4', '5', '6', '7', '8', '9'][d as int]
}

/// The decimal digits of `n`, most significant first.
pub open spec fn digits_of(n: nat) -> Seq<char>
    decreases n,
{
    if n < 10 {
        seq![digit_char(n)]
    } else {
        digits_of(n / 10).push(digit_char(n % 10))
    }
}

/// The decimal text of `n`, with a minus sign when negative.
pub open spec fn decimal(n: int) -> Seq<char> {
    if n < 0 {
        seq!['-'] + digits_of((-n) as nat)
    } else {
        digits_of(n as nat)
    }
}

fn digit_str(d: u64) -> (r: &'static str)
    requires
        d < 10,
    ensures
        r@ == seq![digit_char(d as nat)],
{
    proof {
        reveal_strlit("0");
        reveal_strlit("1");
        reveal_strlit("2");
        reveal_strlit("3");
        reveal_strlit("4");
        reveal_strlit("5");
        reveal_strlit("6");
        reveal_strlit("7");
        reveal_strlit("8");
        reveal_strlit("9");
    }
    if d == 0 {
        "0"
    } else if d == 1 {
        "1"
    } else if d == 2 {
        "2"
    } else if d == 3 {
        "3"
    } else if d == 4 {
        "4"
    } else if d == 5 {
        "5"
    } else if d == 6 {
        "6"
    } else if d == 7 {
        "7"
    } else if d == 8 {
        "8"
    } else {
        "9"
    }
}

/// The digits of `n / 10^k`, for the `k` least significant digits that are
/// still to be written.
spec fn digits_above(n: nat, k: nat) -> Seq<char>
    decreases k,
{
    if k == 0 {
        Seq::empty()
    } else {
        digits_above(n / 10, (k - 1) as nat).push(digit_char(n % 10))
    }
}

/// The decimal text of an integer.
pub fn decimal_text(n: i64) -> (r: String)
    ensures
        r@ == decimal(n as int),
{
    let magnitude: u64 = if n < 0 {
        (-(n as i128)) as u64
    } else {
        n as u64
    };
    // the digits, least significant first
    let mut low_first: Vec<u64> = Vec::new();
    let mut m = magnitude;
    loop
        invariant_except_break
            digits_of(magnitude as nat) == digits_of(m as nat) + low_first@.reverse().map_values(
                |d: u64| digit_char(d as nat),
            ),
        invariant
            forall|j: int| 0 <= j < low_first@.len() ==> low_first@[j] < 10,
        ensures
            digits_of(magnitude as nat) == low_first@.reverse().map_values(
                |d: u64| digit_char(d as nat),
            ),
        decreases m,
    {
        let ghost before = low_first@;
        low_first.push(m % 10);
        proof {
            let f = |d: u64| digit_char(d as nat);
            assert(low_first@.reverse() =~= seq![m % 10] + before.reverse());
            assert(low_first@.reverse().map_values(f) =~= seq![digit_char((m % 10) as nat)]
                + before.reverse().map_values(f));
        }
        if m < 10 {
            proof {
                let f = |d: u64| digit_char(d as nat);
                assert(digits_of(m as nat) =~= seq![digit_char(m as nat)]);
                assert(m % 10 == m);
                assert(digits_of(magnitude as nat) =~= low_first@.reverse().map_values(f));
            }
            break;
        }
        assert(digits_of(m as nat) == digits_of((m / 10) as nat).push(digit_char((m % 10) as nat)));
        m = m / 10;
    }
    let mut r = if n < 0 {
        proof {
            reveal_strlit("-");
        }
        String::from_str("-")
    } else {
        String::new()
    };
    assert(r@ =~= (if n < 0 {
        seq!['-']
    } else {
        Seq::<char>::empty()
    }));
    let ghost head = r@;
    let mut i = low_first.len();
    while i > 0
        invariant
            i <= low_first@.len(),
            forall|j: int| 0 <= j < low_first@.len() ==> low_first@[j] < 10,
            r@ == head + low_first@.subrange(i as int, low_first@.len() as int).reverse().map_values(
                |d: u64| digit_char(d as nat),
            ),
        decreases i,
    {
        i -= 1;
        let d = digit_str(low_first[i]);
        let ghost before = r@;
        r.append(d);
        proof {
            let f = |d: u64| digit_char(d as nat);
            let tail = low_first@.subrange(i as int, low_first@.len() as int);
            let prev = low_first@.subrange(i + 1, low_first@.len() as int);
            assert(tail =~= seq![low_first@[i as int]] + prev);
            assert(tail.reverse() =~= prev.reverse().push(low_first@[i as int]));
            assert(tail.reverse().map_values(f) =~= prev.reverse().map_values(f).push(
                digit_char(low_first@[i as int] as nat),
            ));
            assert(r@ =~= head + tail.reverse().map_values(f));
        }
    }
    proof {
        assert(low_first@.subrange(0, low_first@.len() as int) =~= low_first@);
        assert(r@ =~= decimal(n as int));
    }
    r
}

/// The query parameters of a daily chart request, in order: the period,
/// the daily bar size and, when asked for, the corporate events.
pub open spec fn chart_query(period: ChartPeriod, with_events: bool) -> Seq<(Seq<char>, Seq<char>)> {
    let base = match period {
        ChartPeriod::Range(i) => seq![("range"@, interval_code(i)), ("interval"@, "1d"@)],
        ChartPeriod::Between(a, b) => seq![
            ("period1"@, decimal(a as int)),
            ("period2"@, decimal(b as int)),
            ("interval"@, "1d"@),
        ],
    };
    if with_events {
        base.push(("events"@, "div|split"@))
    } else {
        base
    }
}

/// The text of each (name, value) pair.
pub open spec fn pairs_text(v: Seq<(String, String)>) -> Seq<(Seq<char>, Seq<char>)> {
    v.map_values(|p: (String, String)| (p.0@, p.1@))
}

fn param(name: &str, value: String) -> (r: (String, String))
    ensures
        r.0@ == name@,
        r.1@ == value@,
{
    (String::from_str(name), value)
}

/// The query parameters of a daily chart request.
pub fn query_pairs(period: ChartPeriod, with_events: bool) -> (r: Vec<(String, String)>)
    ensures
        pairs_text(r@) == chart_query(period, with_events),
{
    let mut r: Vec<(String, String)> = Vec::new();
    match period {
        ChartPeriod::Range(i) => {
            r.push(param("range", i.to_string()));
            r.push(param("interval", String::from_str("1d")));
        },
        ChartPeriod::Between(a, b) => {
            r.push(param("period1", decimal_text(a)));
            r.push(param("period2", decimal_text(b)));
            r.push(param("interval", String::from_str("1d")));
        },
    }
    if with_events {
        r.push(param("events", String::from_str("div|split")));
    }
    assert(pairs_text(r@) =~= chart_query(period, with_events));
    r
}

} // verus!
