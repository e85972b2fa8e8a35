//! Identifier types: textual symbols, venues, and the resolved instrument
//! identifier that combines the two.

use vstd::prelude::*;

verus! {

/// Numeric tag identifying the upstream publisher (data source) of a record.
pub type PublisherId = u16;

/// A feed-local textual instrument symbol.
#[derive(Debug)]
pub struct Symbol {
    pub value: String,
}

impl View for Symbol {
    type V = Seq<char>;

    open spec fn view(&self) -> Seq<char> {
        self.value@
    }
}

impl Symbol {
    pub fn new(value: String) -> (s: Symbol)
        ensures
            s@ == value@,
    {
        Symbol { value }
    }
}

impl Clone for Symbol {
    fn clone(&self) -> (r: Symbol)
        ensures
            r@ == self@,
    {
        Symbol { value: self.value.clone() }
    }
}

/// The market or exchange an instrument trades on, distinct from the data
/// source that reports on it.
#[derive(Debug)]
pub struct Venue {
    pub value: String,
}

impl View for Venue {
    type V = Seq<char>;

    open spec fn view(&self) -> Seq<char> {
        self.value@
    }
}

impl Venue {
    pub fn new(value: String) -> (v: Venue)
        ensures
            v@ == value@,
    {
        Venue { value }
    }
}

impl Clone for Venue {
    fn clone(&self) -> (r: Venue)
        ensures
            r@ == self@,
    {
        Venue { value: self.value.clone() }
    }
}

/// Mathematical value of an [`InstrumentId`]: the symbol and venue as
/// character sequences.
pub ghost struct InstrumentIdView {
    pub symbol: Seq<char>,
    pub venue: Seq<char>,
}

/// The canonical identifier of an instrument: an immutable pair of a textual
/// symbol and the venue it trades on.
#[derive(Debug)]
pub struct InstrumentId {
    pub symbol: Symbol,
    pub venue: Venue,
}

impl View for InstrumentId {
    type V = InstrumentIdView;

    open spec fn view(&self) -> InstrumentIdView {
        InstrumentIdView { symbol: self.symbol@, venue: self.venue@ }
    }
}

impl InstrumentId {
    pub fn new(symbol: Symbol, venue: Venue) -> (id: InstrumentId)
        ensures
            id@ == (InstrumentIdView { symbol: symbol@, venue: venue@ }),
    {
        InstrumentId { symbol, venue }
    }
}

} // verus!
