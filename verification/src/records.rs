//! The decoded market-data records the resolver accepts: a closed tagged
//! union over the wire-level record kinds, carrying only the fields the
//! resolver reads (the numeric instrument reference and the timestamps).

use vstd::prelude::*;

use crate::error::ResolveError;

verus! {

/// The common header every record variant carries: the feed-local numeric
/// instrument reference and the event timestamp, in nanoseconds since the
/// Unix epoch.
#[derive(Clone, Copy, PartialEq, Eq, Structural, Debug)]
pub struct RecordHeader {
    pub instrument_ref: u32,
    pub ts_event: u64,
}

/// A decoded market-data record. Book, trade and quote variants carry a
/// receive timestamp beside the header; bar variants carry only the header
/// and are dated by its event timestamp. Any record kind outside the
/// enumerated ones arrives as `Unsupported` with its raw type tag, and is
/// rejected by resolution.
#[derive(Clone, Copy, PartialEq, Eq, Structural, Debug)]
pub enum Record {
    /// An order-book update (market-by-order).
    OrderBookUpdate { header: RecordHeader, ts_recv: u64 },
    /// A trade.
    Trade { header: RecordHeader, ts_recv: u64 },
    /// A top-of-book quote (market-by-price, one level).
    TopOfBookQuote { header: RecordHeader, ts_recv: u64 },
    /// A full-depth quote (market-by-price, ten levels).
    DepthQuote { header: RecordHeader, ts_recv: u64 },
    /// A one-second bar aggregate.
    SecondBar { header: RecordHeader },
    /// A one-minute bar aggregate.
    MinuteBar { header: RecordHeader },
    /// A one-hour bar aggregate.
    HourBar { header: RecordHeader },
    /// A daily bar aggregate.
    DayBar { header: RecordHeader },
    /// An end-of-day bar aggregate.
    EndOfDayBar { header: RecordHeader },
    /// A record whose type tag is none of the above.
    Unsupported { rtype: u8 },
}

/// The instrument reference and the timestamp that dates a record: the
/// receive timestamp for book, trade and quote variants, the header's event
/// timestamp for bar variants, and nothing for an unsupported record.
pub open spec fn record_fields(r: Record) -> Option<(u32, u64)> {
    match r {
        Record::OrderBookUpdate { header, ts_recv } => Some((header.instrument_ref, ts_recv)),
        Record::Trade { header, ts_recv } => Some((header.instrument_ref, ts_recv)),
        Record::TopOfBookQuote { header, ts_recv } => Some((header.instrument_ref, ts_recv)),
        Record::DepthQuote { header, ts_recv } => Some((header.instrument_ref, ts_recv)),
        Record::SecondBar { header } => Some((header.instrument_ref, header.ts_event)),
        Record::MinuteBar { header } => Some((header.instrument_ref, header.ts_event)),
        Record::HourBar { header } => Some((header.instrument_ref, header.ts_event)),
        Record::DayBar { header } => Some((header.instrument_ref, header.ts_event)),
        Record::EndOfDayBar { header } => Some((header.instrument_ref, header.ts_event)),
        Record::Unsupported { .. } => None,
    }
}

impl Record {
    /// Extracts the instrument reference and the timestamp that dates this
    /// record, rejecting unsupported record kinds.
    pub fn instrument_ref_and_timestamp(&self) -> (r: Result<(u32, u64), ResolveError>)
        ensures
            match record_fields(*self) {
                Some(fields) => r == Ok::<(u32, u64), ResolveError>(fields),
                None => r == Err::<(u32, u64), ResolveError>(ResolveError::UnsupportedRecordType),
            },
    {
        match *self {
            Record::OrderBookUpdate { header, ts_recv } => Ok((header.instrument_ref, ts_recv)),
            Record::Trade { header, ts_recv } => Ok((header.instrument_ref, ts_recv)),
            Record::TopOfBookQuote { header, ts_recv } => Ok((header.instrument_ref, ts_recv)),
            Record::DepthQuote { header, ts_recv } => Ok((header.instrument_ref, ts_recv)),
            Record::SecondBar { header } => Ok((header.instrument_ref, header.ts_event)),
            Record::MinuteBar { header } => Ok((header.instrument_ref, header.ts_event)),
            Record::HourBar { header } => Ok((header.instrument_ref, header.ts_event)),
            Record::DayBar { header } => Ok((header.instrument_ref, header.ts_event)),
            Record::EndOfDayBar { header } => Ok((header.instrument_ref, header.ts_event)),
            Record::Unsupported { .. } => Err(ResolveError::UnsupportedRecordType),
        }
    }
}

} // verus!
