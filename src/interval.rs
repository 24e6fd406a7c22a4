use vstd::prelude::*;
use vstd::string::StringExecFns;

verus! {

/// An interval used when requesting periods of quote information.
///
/// Since identifiers cannot start with a digit (as the values are normally
/// written), the variants start with an underscore.
///
/// `m` is for minutes, `mo` is for months, the rest are self explanatory.
#[allow(non_camel_case_types)]
#[derive(Debug, Clone, Copy, PartialEq, Eq, Structural)]
pub enum Interval {
    _1m,
    _2m,
    _5m,
    _15m,
    _30m,
    _60m,
    _90m,
    _1d,
    _5d,
    _1mo,
    _3mo,
    _6mo,
    _1y,
    _2y,
    _5y,
    _10y,
    _ytd,
    _max,
}

/// Whether an interval is shorter than a trading day.
pub open spec fn spec_is_intraday(i: Interval) -> bool {
    match i {
        Interval::_1m | Interval::_2m | Interval::_5m | Interval::_15m | Interval::_30m
        | Interval::_60m | Interval::_90m => true,
        _ => false,
    }
}

/// The text by which the data provider names an interval.
pub open spec fn interval_code(i: Interval) -> Seq<char> {
    match i {
        Interval::_1m => seq!['1', 'm'],
        Interval::_2m => seq!['2', 'm'],
        Interval::_5m => seq!['5', 'm'],
        Interval::_15m => seq!['1', '5', 'm'],
        Interval::_30m => seq!['3', '0', 'm'],
        Interval::_60m => seq!['6', '0', 'm'],
        Interval::_90m => seq!['9', '0', 'm'],
        Interval::_1d => seq!['1', 'd'],
        Interval::_5d => seq!['5', 'd'],
        Interval::_1mo => seq!['1', 'm', 'o'],
        Interval::_3mo => seq!['3', 'm', 'o'],
        Interval::_6mo => seq!['6', 'm', 'o'],
        Interval::_1y => seq!['1', 'y'],
        Interval::_2y => seq!['2', 'y'],
        Interval::_5y => seq!['5', 'y'],
        Interval::_10y => seq!['1', '0', 'y'],
        Interval::_ytd => seq!['y', 't', 'd'],
        Interval::_max => seq!['m', 'a', 'x'],
    }
}

impl Interval {
    /// True for the minute intervals, which only intraday requests accept.
    pub fn is_intraday(&self) -> (r: bool)
        ensures
            r == spec_is_intraday(*self),
    {
        match self {
            Interval::_1m | Interval::_2m | Interval::_5m | Interval::_15m | Interval::_30m
            | Interval::_60m | Interval::_90m => true,
            _ => false,
        }
    }

    /// The provider's name of the interval, as used in request queries.
    pub fn as_str(&self) -> (r: &'static str)
        ensures
            r@ == interval_code(*self),
    {
        match self {
            Interval::_1m => {
                proof { reveal_strlit("1m"); }
                "1m"
            },
            Interval::_2m => {
                proof { reveal_strlit("2m"); }
                "2m"
            },
            Interval::_5m => {
                proof { reveal_strlit("5m"); }
                "5m"
            },
            Interval::_15m => {
                proof { reveal_strlit("15m"); }
                "15m"
            },
            Interval::_30m => {
                proof { reveal_strlit("30m"); }
                "30m"
            },
            Interval::_60m => {
                proof { reveal_strlit("60m"); }
                "60m"
            },
            Interval::_90m => {
                proof { reveal_strlit("90m"); }
                "90m"
            },
            Interval::_1d => {
                proof { reveal_strlit("1d"); }
                "1d"
            },
            Interval::_5d => {
                proof { reveal_strlit("5d"); }
                "5d"
            },
            Interval::_1mo => {
                proof { reveal_strlit("1mo"); }
                "1mo"
            },
            Interval::_3mo => {
                proof { reveal_strlit("3mo"); }
                "3mo"
            },
            Interval::_6mo => {
                proof { reveal_strlit("6mo"); }
                "6mo"
            },
            Interval::_1y => {
                proof { reveal_strlit("1y"); }
                "1y"
            },
            Interval::_2y => {
                proof { reveal_strlit("2y"); }
                "2y"
            },
            Interval::_5y => {
                proof { reveal_strlit("5y"); }
                "5y"
            },
            Interval::_10y => {
                proof { reveal_strlit("10y"); }
                "10y"
            },
            Interval::_ytd => {
                proof { reveal_strlit("ytd"); }
                "ytd"
            },
            Interval::_max => {
                proof { reveal_strlit("max"); }
                "max"
            },
        }
    }

    /// The provider's name of the interval as an owned string.
    pub fn to_string(&self) -> (r: String)
        ensures
            r@ == interval_code(*self),
    {
        String::from_str(self.as_str())
    }
}

} // verus!
