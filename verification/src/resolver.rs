//! The instrument resolver: from a decoded record, a publisher identifier and
//! the three lookup tables to a canonical instrument identifier. Resolution
//! is a pure function of its inputs; the spec functions here state its result
//! exactly, and the proof functions state the laws it obeys.

use indexmap::IndexMap;
use vstd::prelude::*;

use crate::calendar::{date_from_unix_nanos, date_of_unix_nanos, Date};
use crate::error::ResolveError;
use crate::identifiers::{InstrumentId, InstrumentIdView, PublisherId, Symbol, Venue};
use crate::publisher_venues::{publisher_venue_entries, publisher_venue_get};
use crate::records::{record_fields, Record};
use crate::tables::{ExchangeOverrideMap, SymbolTable};

verus! {

/// A resolution result by its mathematical value: the identifier's view on
/// success, the error unchanged on failure.
pub open spec fn result_view(r: Result<InstrumentId, ResolveError>) -> Result<
    InstrumentIdView,
    ResolveError,
> {
    match r {
        Ok(id) => Ok(id@),
        Err(e) => Err(e),
    }
}

/// What resolving a given instrument reference on a given calendar date
/// returns. The date's symbol map must bind the reference, or resolution
/// fails; the venue is the symbol's override if the override table has one,
/// otherwise the publisher's default venue, and a publisher with neither
/// fails.
pub open spec fn resolve_on_date_spec(
    instrument_ref: u32,
    date: Date,
    publisher_id: PublisherId,
    symbols: Map<Date, Map<u32, Seq<char>>>,
    venues: Map<PublisherId, Seq<char>>,
    overrides: Map<Seq<char>, Seq<char>>,
) -> Result<InstrumentIdView, ResolveError> {
    if !(symbols.contains_key(date) && symbols[date].contains_key(instrument_ref)) {
        Err(ResolveError::SymbolNotFound)
    } else {
        let symbol = symbols[date][instrument_ref];
        if overrides.contains_key(symbol) {
            Ok(InstrumentIdView { symbol, venue: overrides[symbol] })
        } else if venues.contains_key(publisher_id) {
            Ok(InstrumentIdView { symbol, venue: venues[publisher_id] })
        } else {
            Err(ResolveError::VenueNotFound)
        }
    }
}

/// What resolving a record returns: unsupported record kinds are rejected
/// outright; any other record is resolved on the UTC calendar date of its
/// timestamp (the receive timestamp for book, trade and quote records, the
/// event timestamp for bar records).
pub open spec fn resolve_spec(
    record: Record,
    publisher_id: PublisherId,
    symbols: Map<Date, Map<u32, Seq<char>>>,
    venues: Map<PublisherId, Seq<char>>,
    overrides: Map<Seq<char>, Seq<char>>,
) -> Result<InstrumentIdView, ResolveError> {
    match record_fields(record) {
        None => Err(ResolveError::UnsupportedRecordType),
        Some((instrument_ref, ts)) => resolve_on_date_spec(
            instrument_ref,
            date_of_unix_nanos(ts),
            publisher_id,
            symbols,
            venues,
            overrides,
        ),
    }
}

/// Resolves an instrument reference already dated to a calendar date: looks
/// the textual symbol up in the date's symbol map, then the venue in the
/// override table first and the publisher-to-venue table second.
pub fn resolve_on_date(
    instrument_ref: u32,
    date: Date,
    publisher_id: PublisherId,
    symbol_table: &SymbolTable,
    publisher_venue_map: &IndexMap<PublisherId, Venue>,
    glbx_exchange_map: &ExchangeOverrideMap,
) -> (r: Result<InstrumentId, ResolveError>)
    ensures
        result_view(r) == resolve_on_date_spec(
            instrument_ref,
            date,
            publisher_id,
            symbol_table@,
            publisher_venue_entries(publisher_venue_map),
            glbx_exchange_map@,
        ),
{
    let raw_symbol = match symbol_table.get(date, instrument_ref) {
        Some(raw_symbol) => raw_symbol,
        None => {
            return Err(ResolveError::SymbolNotFound);
        },
    };
    let symbol = Symbol::new(raw_symbol);
    match glbx_exchange_map.get(&symbol) {
        Some(venue) => Ok(InstrumentId::new(symbol, venue)),
        None => match publisher_venue_get(publisher_venue_map, publisher_id) {
            Some(venue) => Ok(InstrumentId::new(symbol, venue)),
            None => Err(ResolveError::VenueNotFound),
        },
    }
}

/// Resolves a decoded record to its canonical instrument identifier: picks
/// the record's dating timestamp (rejecting unsupported record kinds),
/// converts it to the UTC calendar date it falls on, and resolves the
/// record's instrument reference on that date.
pub fn decode_nautilus_instrument_id(
    record: &Record,
    publisher_id: PublisherId,
    symbol_table: &SymbolTable,
    publisher_venue_map: &IndexMap<PublisherId, Venue>,
    glbx_exchange_map: &ExchangeOverrideMap,
) -> (r: Result<InstrumentId, ResolveError>)
    ensures
        result_view(r) == resolve_spec(
            *record,
            publisher_id,
            symbol_table@,
            publisher_venue_entries(publisher_venue_map),
            glbx_exchange_map@,
        ),
{
    let (instrument_ref, ts) = match record.instrument_ref_and_timestamp() {
        Ok(fields) => fields,
        Err(e) => {
            return Err(e);
        },
    };
    let date = date_from_unix_nanos(ts);
    resolve_on_date(
        instrument_ref,
        date,
        publisher_id,
        symbol_table,
        publisher_venue_map,
        glbx_exchange_map,
    )
}

/// Every supported record is dated by its variant's correct timestamp field:
/// book, trade and quote records by their receive timestamp, bar records by
/// their header's event timestamp; and exactly the unsupported kind yields no
/// fields at all.
pub proof fn lemma_timestamp_field_selection(record: Record)
    ensures
        record matches Record::OrderBookUpdate { header, ts_recv } ==> record_fields(record)
            == Some((header.instrument_ref, ts_recv)),
        record matches Record::Trade { header, ts_recv } ==> record_fields(record) == Some(
            (header.instrument_ref, ts_recv),
        ),
        record matches Record::TopOfBookQuote { header, ts_recv } ==> record_fields(record)
            == Some((header.instrument_ref, ts_recv)),
        record matches Record::DepthQuote { header, ts_recv } ==> record_fields(record) == Some(
            (header.instrument_ref, ts_recv),
        ),
        record matches Record::SecondBar { header } ==> record_fields(record) == Some(
            (header.instrument_ref, header.ts_event),
        ),
        record matches Record::MinuteBar { header } ==> record_fields(record) == Some(
            (header.instrument_ref, header.ts_event),
        ),
        record matches Record::HourBar { header } ==> record_fields(record) == Some(
            (header.instrument_ref, header.ts_event),
        ),
        record matches Record::DayBar { header } ==> record_fields(record) == Some(
            (header.instrument_ref, header.ts_event),
        ),
        record matches Record::EndOfDayBar { header } ==> record_fields(record) == Some(
            (header.instrument_ref, header.ts_event),
        ),
        record is Unsupported <==> record_fields(record) is None,
{
}

/// A record of an unrecognized kind is rejected as unsupported, whatever the
/// tables hold, and no identifier is produced.
pub proof fn lemma_unsupported_record_rejected(
    record: Record,
    publisher_id: PublisherId,
    symbols: Map<Date, Map<u32, Seq<char>>>,
    venues: Map<PublisherId, Seq<char>>,
    overrides: Map<Seq<char>, Seq<char>>,
)
    requires
        record is Unsupported,
    ensures
        resolve_spec(record, publisher_id, symbols, venues, overrides) == Err::<
            InstrumentIdView,
            ResolveError,
        >(ResolveError::UnsupportedRecordType),
{
}

/// An instrument reference with no symbol bound on the record's date fails
/// with the symbol-not-found error, even when the reference is bound under
/// some other date.
pub proof fn lemma_symbol_not_found(
    instrument_ref: u32,
    date: Date,
    publisher_id: PublisherId,
    symbols: Map<Date, Map<u32, Seq<char>>>,
    venues: Map<PublisherId, Seq<char>>,
    overrides: Map<Seq<char>, Seq<char>>,
)
    requires
        !symbols.contains_key(date) || !symbols[date].contains_key(instrument_ref),
    ensures
        resolve_on_date_spec(instrument_ref, date, publisher_id, symbols, venues, overrides)
            == Err::<InstrumentIdView, ResolveError>(ResolveError::SymbolNotFound),
{
}

/// When the resolved symbol is in the override table, the returned venue is
/// the override's, whatever the publisher-to-venue table maps the publisher
/// to.
pub proof fn lemma_override_wins(
    instrument_ref: u32,
    date: Date,
    publisher_id: PublisherId,
    symbols: Map<Date, Map<u32, Seq<char>>>,
    venues: Map<PublisherId, Seq<char>>,
    overrides: Map<Seq<char>, Seq<char>>,
)
    requires
        symbols.contains_key(date),
        symbols[date].contains_key(instrument_ref),
        overrides.contains_key(symbols[date][instrument_ref]),
    ensures
        resolve_on_date_spec(instrument_ref, date, publisher_id, symbols, venues, overrides)
            == Ok::<InstrumentIdView, ResolveError>(
            InstrumentIdView {
                symbol: symbols[date][instrument_ref],
                venue: overrides[symbols[date][instrument_ref]],
            },
        ),
{
}

/// When the resolved symbol is not in the override table, the returned venue
/// is the publisher-to-venue table's entry for the record's publisher.
pub proof fn lemma_publisher_venue_fallback(
    instrument_ref: u32,
    date: Date,
    publisher_id: PublisherId,
    symbols: Map<Date, Map<u32, Seq<char>>>,
    venues: Map<PublisherId, Seq<char>>,
    overrides: Map<Seq<char>, Seq<char>>,
)
    requires
        symbols.contains_key(date),
        symbols[date].contains_key(instrument_ref),
        !overrides.contains_key(symbols[date][instrument_ref]),
        venues.contains_key(publisher_id),
    ensures
        resolve_on_date_spec(instrument_ref, date, publisher_id, symbols, venues, overrides)
            == Ok::<InstrumentIdView, ResolveError>(
            InstrumentIdView {
                symbol: symbols[date][instrument_ref],
                venue: venues[publisher_id],
            },
        ),
{
}

/// When the resolved symbol is not in the override table and the publisher is
/// not in the publisher-to-venue table, resolution fails with the
/// venue-not-found error.
pub proof fn lemma_venue_not_found(
    instrument_ref: u32,
    date: Date,
    publisher_id: PublisherId,
    symbols: Map<Date, Map<u32, Seq<char>>>,
    venues: Map<PublisherId, Seq<char>>,
    overrides: Map<Seq<char>, Seq<char>>,
)
    requires
        symbols.contains_key(date),
        symbols[date].contains_key(instrument_ref),
        !overrides.contains_key(symbols[date][instrument_ref]),
        !venues.contains_key(publisher_id),
    ensures
        resolve_on_date_spec(instrument_ref, date, publisher_id, symbols, venues, overrides)
            == Err::<InstrumentIdView, ResolveError>(ResolveError::VenueNotFound),
{
}

/// Resolution is a pure function of its inputs: two calls on equal records,
/// publishers and tables yield equal results. The executable resolver returns
/// exactly `resolve_spec` of its inputs' views, so two calls on identical,
/// unmodified inputs return identical identifiers or errors.
pub proof fn lemma_resolution_deterministic(
    record1: Record,
    record2: Record,
    publisher_id1: PublisherId,
    publisher_id2: PublisherId,
    symbols1: Map<Date, Map<u32, Seq<char>>>,
    symbols2: Map<Date, Map<u32, Seq<char>>>,
    venues1: Map<PublisherId, Seq<char>>,
    venues2: Map<PublisherId, Seq<char>>,
    overrides1: Map<Seq<char>, Seq<char>>,
    overrides2: Map<Seq<char>, Seq<char>>,
)
    requires
        record1 == record2,
        publisher_id1 == publisher_id2,
        symbols1 == symbols2,
        venues1 == venues2,
        overrides1 == overrides2,
    ensures
        resolve_spec(record1, publisher_id1, symbols1, venues1, overrides1) == resolve_spec(
            record2,
            publisher_id2,
            symbols2,
            venues2,
            overrides2,
        ),
{
}

} // verus!
