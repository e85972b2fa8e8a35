//! The ways a resolution can fail. All three are local, synchronous failures
//! returned to the caller; none has a transient cause worth retrying.

use vstd::prelude::*;

verus! {

/// Why a record could not be resolved to an instrument identifier.
#[derive(Clone, Copy, PartialEq, Eq, Structural, Debug)]
pub enum ResolveError {
    /// The record's type tag is none of the recognized variants. Retrying
    /// cannot help: the same record keeps the same type.
    UnsupportedRecordType,
    /// The numeric instrument reference has no symbol on the record's
    /// calendar date. The record is likely malformed or references stale or
    /// unmapped metadata.
    SymbolNotFound,
    /// Neither the override table nor the publisher-to-venue table yields a
    /// venue: a configuration gap for a publisher that is actually in use.
    VenueNotFound,
}

impl ResolveError {
    /// A short description of the failure, for callers that report it.
    pub fn message(&self) -> (m: &'static str)
        ensures
            self is UnsupportedRecordType ==> m@ == "record type is unsupported"@,
            self is SymbolNotFound ==> m@ == "no symbol found for the instrument reference on the record's date"@,
            self is VenueNotFound ==> m@ == "no venue found for the publisher"@,
    {
        match self {
            ResolveError::UnsupportedRecordType => "record type is unsupported",
            ResolveError::SymbolNotFound => "no symbol found for the instrument reference on the record's date",
            ResolveError::VenueNotFound => "no venue found for the publisher",
        }
    }
}

} // verus!
