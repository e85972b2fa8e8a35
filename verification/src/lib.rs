//! Instrument symbology resolution for a market-data feed.
//!
//! Each incoming record carries a feed-local numeric instrument reference and
//! a timestamp, but no human-readable symbol or venue. This library resolves
//! such a record, together with a publisher identifier and three lookup
//! tables, into a canonical [`identifiers::InstrumentId`]: the record's
//! timestamp selects a calendar date, the date-scoped symbol table maps the
//! numeric reference to a textual symbol, and the venue is taken from an
//! exchange-override table keyed by symbol, falling back to a default venue
//! keyed by publisher.

pub mod calendar;
pub mod error;
pub mod identifiers;
pub mod publisher_venues;
pub mod records;
pub mod resolver;
pub mod tables;

pub use calendar::Date;
pub use error::ResolveError;
pub use identifiers::{InstrumentId, PublisherId, Symbol, Venue};
pub use records::{Record, RecordHeader};
pub use resolver::{decode_nautilus_instrument_id, resolve_on_date};
pub use tables::{DaySymbolMap, ExchangeOverrideMap, SymbolTable};
