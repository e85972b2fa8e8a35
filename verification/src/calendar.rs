//! Calendar dates and the conversion from record timestamps (nanoseconds
//! since the Unix epoch) to the UTC calendar date they fall on.

use vstd::prelude::*;

verus! {

/// A calendar date in the proleptic Gregorian calendar, as the UTC date a
/// record timestamp falls on. Dates key the symbol table and are only ever
/// compared for equality.
#[derive(Clone, Copy, PartialEq, Eq, Structural, Hash, Debug)]
pub struct Date {
    pub year: i32,
    pub month: u8,
    pub day: u8,
}

impl Date {
    pub fn new(year: i32, month: u8, day: u8) -> (d: Date)
        ensures
            d == (Date { year, month, day }),
    {
        Date { year, month, day }
    }
}

/// The UTC calendar date that a timestamp of `ns` nanoseconds since the Unix
/// epoch falls on, with the nanosecond count read as a signed 64-bit value.
/// The conversion is deterministic; its value is fixed only by the `time`
/// crate's calendar arithmetic, so it is left uninterpreted here.
pub uninterp spec fn date_of_unix_nanos(ns: u64) -> Date;

/// Relies on `time::OffsetDateTime::checked_add` and `time::Date`: adds the
/// timestamp to the Unix epoch as a signed nanosecond duration and takes the
/// UTC calendar date of the result. A 64-bit nanosecond count spans roughly
/// 292 years either side of 1970, well inside `time::Date`'s year range, so
/// `checked_add` cannot fail here.
#[verifier::external_body]
pub(crate) fn date_from_unix_nanos(ns: u64) -> (d: Date)
    ensures
        d == date_of_unix_nanos(ns),
{
    let duration = time::Duration::nanoseconds(ns as i64);
    let datetime = time::OffsetDateTime::UNIX_EPOCH.checked_add(duration).unwrap();
    let date = datetime.date();
    Date { year: date.year(), month: u8::from(date.month()), day: date.day() }
}

} // verus!
