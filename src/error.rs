use vstd::prelude::*;

use crate::interval::Interval;

verus! {

/// Everything that can go wrong when using the library. Errors of the
/// transport, of HTTP or of JSON parsing are carried as their message text.
#[derive(Debug, Clone, PartialEq)]
pub enum InnerError {
    /// The provider returned data that could not be parsed.
    BadData { reason: String },
    /// A call returned a status that is not a success.
    CallFailed { url: String, status: u16 },
    /// The chart service reported a failure.
    ChartFailed { code: String, description: String },
    /// A consistency check of the library itself failed.
    InternalLogic { reason: String },
    /// A URL could not be built.
    InternalURL { url: String, reason: String },
    /// The start date is not before the end date.
    InvalidStartDate,
    /// Data that the provider should have sent is missing or inconsistent.
    MissingData { reason: String },
    /// An intraday interval was used where only daily ones are allowed.
    NoIntraday { interval: Interval },
    /// A request could not be made.
    RequestFailed { reason: String },
    /// A call failed in an unexpected way.
    UnexectedFailure { url: String, code: u16 },
    /// The body of a response could not be read.
    UnexpectedErrorRead { url: String, reason: String },
    /// The provider's answer lacks the expected data.
    UnexpectedErrorYahoo,
    /// An error that cannot be told apart.
    Unknown,
    /// Profiles of this security type are not supported.
    UnsupportedSecurity { kind: String },
    /// The streaming connection could not be opened.
    ConnectFailed { reason: String },
    /// A frame could not be sent on the streaming connection.
    SendFailed { reason: String },
    /// The open streaming connection failed while receiving.
    TransportFailed { reason: String },
}

/// The library's error.
#[derive(Debug, Clone, PartialEq)]
pub struct Error(pub InnerError);

} // verus!
