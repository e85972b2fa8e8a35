use databento_symbology::{
    decode_nautilus_instrument_id, Date, DaySymbolMap, ExchangeOverrideMap, InstrumentId,
    PublisherId, Record, RecordHeader, ResolveError, Symbol, SymbolTable, Venue,
};
use indexmap::IndexMap;

const NANOS_PER_DAY: u64 = 86_400_000_000_000;

/// Unix day number of 2024-01-05.
const DAY_2024_01_05: u64 = 19727;

/// A timestamp during 2024-01-05 UTC.
fn ts_2024_01_05() -> u64 {
    DAY_2024_01_05 * NANOS_PER_DAY + 3 * 3_600_000_000_000
}

/// A timestamp during 2024-01-06 UTC.
fn ts_2024_01_06() -> u64 {
    (DAY_2024_01_05 + 1) * NANOS_PER_DAY + 12 * 3_600_000_000_000
}

fn symbol_table(entries: &[(Date, &[(u32, &str)])]) -> SymbolTable {
    let mut table = SymbolTable::new();
    for (date, symbols) in entries {
        let mut day = DaySymbolMap::new();
        for (instrument_ref, symbol) in *symbols {
            day.insert(*instrument_ref, String::from(*symbol));
        }
        table.insert(*date, day);
    }
    table
}

fn venue_map(entries: &[(PublisherId, &str)]) -> IndexMap<PublisherId, Venue> {
    let mut map = IndexMap::new();
    for (publisher_id, venue) in entries {
        map.insert(*publisher_id, Venue::new(String::from(*venue)));
    }
    map
}

fn override_map(entries: &[(&str, &str)]) -> ExchangeOverrideMap {
    let mut map = ExchangeOverrideMap::new();
    for (symbol, venue) in entries {
        map.insert(
            Symbol::new(String::from(*symbol)),
            Venue::new(String::from(*venue)),
        );
    }
    map
}

fn assert_id(result: Result<InstrumentId, ResolveError>, symbol: &str, venue: &str) {
    let id = result.expect("expected a resolved identifier");
    assert_eq!(id.symbol.value, symbol);
    assert_eq!(id.venue.value, venue);
}

#[test]
fn trade_resolves_to_publisher_venue() {
    let table = symbol_table(&[(Date::new(2024, 1, 5), &[(1001, "ESH4")])]);
    let venues = venue_map(&[(7, "GLBX")]);
    let overrides = override_map(&[]);
    let record = Record::Trade {
        header: RecordHeader { instrument_ref: 1001, ts_event: ts_2024_01_05() },
        ts_recv: ts_2024_01_05(),
    };
    let result = decode_nautilus_instrument_id(&record, 7, &table, &venues, &overrides);
    assert_id(result, "ESH4", "GLBX");
}

#[test]
fn override_wins_over_publisher_venue() {
    let table = symbol_table(&[(Date::new(2024, 1, 5), &[(1001, "ESH4")])]);
    let venues = venue_map(&[(7, "GLBX")]);
    let overrides = override_map(&[("ESH4", "XCME")]);
    let record = Record::Trade {
        header: RecordHeader { instrument_ref: 1001, ts_event: ts_2024_01_05() },
        ts_recv: ts_2024_01_05(),
    };
    let result = decode_nautilus_instrument_id(&record, 7, &table, &venues, &overrides);
    assert_id(result, "ESH4", "XCME");
}

#[test]
fn trade_is_dated_by_receive_timestamp() {
    // The event timestamp falls on a date with a different symbol: a trade
    // must be dated by its receive timestamp, not its event timestamp.
    let table = symbol_table(&[
        (Date::new(2024, 1, 5), &[(1001, "EVENT_DAY")]),
        (Date::new(2024, 1, 6), &[(1001, "RECV_DAY")]),
    ]);
    let venues = venue_map(&[(7, "GLBX")]);
    let overrides = override_map(&[]);
    let record = Record::Trade {
        header: RecordHeader { instrument_ref: 1001, ts_event: ts_2024_01_05() },
        ts_recv: ts_2024_01_06(),
    };
    let result = decode_nautilus_instrument_id(&record, 7, &table, &venues, &overrides);
    assert_id(result, "RECV_DAY", "GLBX");
}

#[test]
fn book_and_quote_records_are_dated_by_receive_timestamp() {
    let table = symbol_table(&[
        (Date::new(2024, 1, 5), &[(1001, "EVENT_DAY")]),
        (Date::new(2024, 1, 6), &[(1001, "RECV_DAY")]),
    ]);
    let venues = venue_map(&[(7, "GLBX")]);
    let overrides = override_map(&[]);
    let header = RecordHeader { instrument_ref: 1001, ts_event: ts_2024_01_05() };
    let records = [
        Record::OrderBookUpdate { header, ts_recv: ts_2024_01_06() },
        Record::TopOfBookQuote { header, ts_recv: ts_2024_01_06() },
        Record::DepthQuote { header, ts_recv: ts_2024_01_06() },
    ];
    for record in records {
        let result = decode_nautilus_instrument_id(&record, 7, &table, &venues, &overrides);
        assert_id(result, "RECV_DAY", "GLBX");
    }
}

#[test]
fn bar_records_are_dated_by_event_timestamp() {
    let table = symbol_table(&[
        (Date::new(2024, 1, 5), &[(1001, "EVENT_DAY")]),
        (Date::new(2024, 1, 6), &[(1001, "RECV_DAY")]),
    ]);
    let venues = venue_map(&[(7, "GLBX")]);
    let overrides = override_map(&[]);
    let header = RecordHeader { instrument_ref: 1001, ts_event: ts_2024_01_05() };
    let records = [
        Record::SecondBar { header },
        Record::MinuteBar { header },
        Record::HourBar { header },
        Record::DayBar { header },
        Record::EndOfDayBar { header },
    ];
    for record in records {
        let result = decode_nautilus_instrument_id(&record, 7, &table, &venues, &overrides);
        assert_id(result, "EVENT_DAY", "GLBX");
    }
}

#[test]
fn unsupported_record_is_rejected() {
    let table = symbol_table(&[(Date::new(2024, 1, 5), &[(1001, "ESH4")])]);
    let venues = venue_map(&[(7, "GLBX")]);
    let overrides = override_map(&[]);
    let record = Record::Unsupported { rtype: 22 };
    let result = decode_nautilus_instrument_id(&record, 7, &table, &venues, &overrides);
    assert_eq!(result.unwrap_err(), ResolveError::UnsupportedRecordType);
}

#[test]
fn missing_symbol_on_record_date_fails() {
    // The reference is bound on another date, but not on the record's date.
    let table = symbol_table(&[(Date::new(2024, 1, 6), &[(1001, "ESH4")])]);
    let venues = venue_map(&[(7, "GLBX")]);
    let overrides = override_map(&[]);
    let record = Record::Trade {
        header: RecordHeader { instrument_ref: 1001, ts_event: ts_2024_01_05() },
        ts_recv: ts_2024_01_05(),
    };
    let result = decode_nautilus_instrument_id(&record, 7, &table, &venues, &overrides);
    assert_eq!(result.unwrap_err(), ResolveError::SymbolNotFound);
}

#[test]
fn missing_reference_on_record_date_fails() {
    let table = symbol_table(&[(Date::new(2024, 1, 5), &[(2002, "NQH4")])]);
    let venues = venue_map(&[(7, "GLBX")]);
    let overrides = override_map(&[]);
    let record = Record::Trade {
        header: RecordHeader { instrument_ref: 1001, ts_event: ts_2024_01_05() },
        ts_recv: ts_2024_01_05(),
    };
    let result = decode_nautilus_instrument_id(&record, 7, &table, &venues, &overrides);
    assert_eq!(result.unwrap_err(), ResolveError::SymbolNotFound);
}

#[test]
fn unknown_publisher_without_override_fails() {
    let table = symbol_table(&[(Date::new(2024, 1, 5), &[(1001, "ESH4")])]);
    let venues = venue_map(&[(8, "XNAS")]);
    let overrides = override_map(&[]);
    let record = Record::Trade {
        header: RecordHeader { instrument_ref: 1001, ts_event: ts_2024_01_05() },
        ts_recv: ts_2024_01_05(),
    };
    let result = decode_nautilus_instrument_id(&record, 7, &table, &venues, &overrides);
    assert_eq!(result.unwrap_err(), ResolveError::VenueNotFound);
}

#[test]
fn override_rescues_unknown_publisher() {
    let table = symbol_table(&[(Date::new(2024, 1, 5), &[(1001, "ESH4")])]);
    let venues = venue_map(&[]);
    let overrides = override_map(&[("ESH4", "XCME")]);
    let record = Record::Trade {
        header: RecordHeader { instrument_ref: 1001, ts_event: ts_2024_01_05() },
        ts_recv: ts_2024_01_05(),
    };
    let result = decode_nautilus_instrument_id(&record, 7, &table, &venues, &overrides);
    assert_id(result, "ESH4", "XCME");
}

#[test]
fn resolution_is_idempotent() {
    let table = symbol_table(&[(Date::new(2024, 1, 5), &[(1001, "ESH4")])]);
    let venues = venue_map(&[(7, "GLBX")]);
    let overrides = override_map(&[("ESH4", "XCME")]);
    let record = Record::Trade {
        header: RecordHeader { instrument_ref: 1001, ts_event: ts_2024_01_05() },
        ts_recv: ts_2024_01_05(),
    };
    let first = decode_nautilus_instrument_id(&record, 7, &table, &venues, &overrides)
        .expect("first call resolves");
    let second = decode_nautilus_instrument_id(&record, 7, &table, &venues, &overrides)
        .expect("second call resolves");
    assert_eq!(first.symbol.value, second.symbol.value);
    assert_eq!(first.venue.value, second.venue.value);
}

#[test]
fn timestamp_just_before_midnight_belongs_to_previous_date() {
    let table = symbol_table(&[
        (Date::new(2024, 1, 4), &[(1001, "BEFORE")]),
        (Date::new(2024, 1, 5), &[(1001, "AFTER")]),
    ]);
    let venues = venue_map(&[(7, "GLBX")]);
    let overrides = override_map(&[]);
    let midnight = DAY_2024_01_05 * NANOS_PER_DAY;
    let before = Record::Trade {
        header: RecordHeader { instrument_ref: 1001, ts_event: midnight - 1 },
        ts_recv: midnight - 1,
    };
    let after = Record::Trade {
        header: RecordHeader { instrument_ref: 1001, ts_event: midnight },
        ts_recv: midnight,
    };
    assert_id(
        decode_nautilus_instrument_id(&before, 7, &table, &venues, &overrides),
        "BEFORE",
        "GLBX",
    );
    assert_id(
        decode_nautilus_instrument_id(&after, 7, &table, &venues, &overrides),
        "AFTER",
        "GLBX",
    );
}

#[test]
fn epoch_timestamp_resolves_on_epoch_date() {
    let table = symbol_table(&[(Date::new(1970, 1, 1), &[(42, "EPOCH")])]);
    let venues = venue_map(&[(1, "TEST")]);
    let overrides = override_map(&[]);
    let record = Record::Trade {
        header: RecordHeader { instrument_ref: 42, ts_event: 0 },
        ts_recv: 0,
    };
    let result = decode_nautilus_instrument_id(&record, 1, &table, &venues, &overrides);
    assert_id(result, "EPOCH", "TEST");
}

#[test]
fn publisher_venue_map_selects_matching_publisher() {
    let table = symbol_table(&[(Date::new(2024, 1, 5), &[(1001, "ESH4")])]);
    let venues = venue_map(&[(1, "XNAS"), (7, "GLBX"), (40, "XCHI")]);
    let overrides = override_map(&[]);
    let record = Record::Trade {
        header: RecordHeader { instrument_ref: 1001, ts_event: ts_2024_01_05() },
        ts_recv: ts_2024_01_05(),
    };
    let result = decode_nautilus_instrument_id(&record, 40, &table, &venues, &overrides);
    assert_id(result, "ESH4", "XCHI");
}

#[test]
fn later_symbol_binding_shadows_earlier_one() {
    let mut day = DaySymbolMap::new();
    day.insert(1001, String::from("OLD"));
    day.insert(1001, String::from("NEW"));
    let mut table = SymbolTable::new();
    table.insert(Date::new(2024, 1, 5), day);
    let venues = venue_map(&[(7, "GLBX")]);
    let overrides = override_map(&[]);
    let record = Record::Trade {
        header: RecordHeader { instrument_ref: 1001, ts_event: ts_2024_01_05() },
        ts_recv: ts_2024_01_05(),
    };
    let result = decode_nautilus_instrument_id(&record, 7, &table, &venues, &overrides);
    assert_id(result, "NEW", "GLBX");
}

#[test]
fn resolving_on_an_explicit_date_matches_the_tables() {
    let table = symbol_table(&[
        (Date::new(2024, 1, 5), &[(1001, "ESH4"), (2002, "NQH4")]),
        (Date::new(2024, 1, 6), &[(1001, "ESM4")]),
    ]);
    let venues = venue_map(&[(7, "GLBX")]);
    let overrides = override_map(&[("NQH4", "XCME")]);
    let on_fifth =
        databento_symbology::resolve_on_date(1001, Date::new(2024, 1, 5), 7, &table, &venues, &overrides);
    assert_id(on_fifth, "ESH4", "GLBX");
    let on_sixth =
        databento_symbology::resolve_on_date(1001, Date::new(2024, 1, 6), 7, &table, &venues, &overrides);
    assert_id(on_sixth, "ESM4", "GLBX");
    let overridden =
        databento_symbology::resolve_on_date(2002, Date::new(2024, 1, 5), 7, &table, &venues, &overrides);
    assert_id(overridden, "NQH4", "XCME");
    let missing =
        databento_symbology::resolve_on_date(2002, Date::new(2024, 1, 6), 7, &table, &venues, &overrides);
    assert_eq!(missing.unwrap_err(), ResolveError::SymbolNotFound);
}

#[test]
fn error_messages_name_the_failure() {
    assert_eq!(
        ResolveError::UnsupportedRecordType.message(),
        "record type is unsupported"
    );
    assert_eq!(
        ResolveError::SymbolNotFound.message(),
        "no symbol found for the instrument reference on the record's date"
    );
    assert_eq!(
        ResolveError::VenueNotFound.message(),
        "no venue found for the publisher"
    );
}
