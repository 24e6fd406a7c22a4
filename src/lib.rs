//! Market data client library: the realtime quote streaming core (wire
//! decoding, session mapping, subscription registry, connection session and
//! dispatch) together with the shared public vocabulary of quotes, intervals,
//! daily bars and profiles.

pub mod error;
pub mod history;
pub mod interval;
pub mod page;
pub mod profile;
pub mod quote;
pub mod registry;
pub mod request;
pub mod session;
pub mod wire;

pub use error::{Error, InnerError};
pub use history::Bar;
pub use interval::Interval;
pub use profile::{Address, Company, Fund, Profile};
pub use quote::{Quote, QuoteType, TradingSession};
