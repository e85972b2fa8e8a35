//! The three lookup tables resolution reads: the date-indexed symbol table
//! (calendar date, then numeric instrument reference, to textual symbol) and
//! the exchange-override table (symbol to venue). Both are association lists
//! whose mathematical value is a `Map`; a later entry for a key shadows an
//! earlier one, so lookups scan from the newest entry backwards.

use vstd::prelude::*;

use crate::calendar::Date;
use crate::identifiers::{Symbol, Venue};

verus! {

/// The mapping an association list denotes: each entry binds its key to its
/// value, and a later entry wins over an earlier one with the same key.
pub open spec fn assoc_map<K, V>(entries: Seq<(K, V)>) -> Map<K, V>
    decreases entries.len(),
{
    if entries.len() == 0 {
        Map::empty()
    } else {
        assoc_map(entries.drop_last()).insert(entries.last().0, entries.last().1)
    }
}

/// Appending an entry updates the denoted mapping at exactly that key.
proof fn lemma_assoc_map_push<K, V>(entries: Seq<(K, V)>, k: K, v: V)
    ensures
        assoc_map(entries.push((k, v))) == assoc_map(entries).insert(k, v),
{
    let pushed = entries.push((k, v));
    assert(pushed.drop_last() =~= entries);
    assert(pushed.last() == (k, v));
}

/// Entries whose keys differ from `k` do not affect the mapping at `k`, so
/// the mapping of the whole list agrees at `k` with the mapping of the prefix
/// before them.
proof fn lemma_assoc_map_unmatched_suffix<K, V>(entries: Seq<(K, V)>, n: int, k: K)
    requires
        0 <= n <= entries.len(),
        forall|j: int| n <= j < entries.len() ==> entries[j].0 != k,
    ensures
        assoc_map(entries).contains_key(k) == assoc_map(entries.take(n)).contains_key(k),
        assoc_map(entries).contains_key(k) ==> assoc_map(entries)[k] == assoc_map(
            entries.take(n),
        )[k],
    decreases entries.len(),
{
    if n == entries.len() {
        assert(entries.take(n) =~= entries);
    } else {
        let prefix = entries.drop_last();
        assert(entries[entries.len() - 1].0 != k);
        assert(forall|j: int| n <= j < prefix.len() ==> prefix[j] == entries[j]);
        lemma_assoc_map_unmatched_suffix(prefix, n, k);
        assert(prefix.take(n) =~= entries.take(n));
    }
}

/// If the entry at index `i` carries key `k` and no later entry does, the
/// denoted mapping binds `k` to that entry's value.
proof fn lemma_assoc_map_found<K, V>(entries: Seq<(K, V)>, i: int, k: K)
    requires
        0 <= i < entries.len(),
        entries[i].0 == k,
        forall|j: int| i < j < entries.len() ==> entries[j].0 != k,
    ensures
        assoc_map(entries).contains_key(k),
        assoc_map(entries)[k] == entries[i].1,
{
    lemma_assoc_map_unmatched_suffix(entries, i + 1, k);
    let p = entries.take(i + 1);
    assert(p.last() == entries[i]);
    assert(assoc_map(p) == assoc_map(p.drop_last()).insert(entries[i].0, entries[i].1));
}

/// If no entry carries key `k`, the denoted mapping has no binding for `k`.
proof fn lemma_assoc_map_absent<K, V>(entries: Seq<(K, V)>, k: K)
    requires
        forall|j: int| 0 <= j < entries.len() ==> entries[j].0 != k,
    ensures
        !assoc_map(entries).contains_key(k),
{
    lemma_assoc_map_unmatched_suffix(entries, 0, k);
    assert(entries.take(0) =~= Seq::<(K, V)>::empty());
}

/// The entries of a single day's symbol map, as key and value views.
pub open spec fn day_symbol_entries_view(entries: Seq<(u32, String)>) -> Seq<(u32, Seq<char>)> {
    entries.map_values(|p: (u32, String)| (p.0, p.1@))
}

/// The symbols valid on one calendar date, keyed by the feed-local numeric
/// instrument reference.
pub struct DaySymbolMap {
    entries: Vec<(u32, String)>,
}

impl View for DaySymbolMap {
    type V = Map<u32, Seq<char>>;

    closed spec fn view(&self) -> Map<u32, Seq<char>> {
        assoc_map(day_symbol_entries_view(self.entries@))
    }
}

impl DaySymbolMap {
    /// A map with no symbols.
    pub fn new() -> (m: DaySymbolMap)
        ensures
            m@ == Map::<u32, Seq<char>>::empty(),
    {
        let m = DaySymbolMap { entries: Vec::new() };
        proof {
            assert(day_symbol_entries_view(m.entries@).len() == 0);
        }
        m
    }

    /// Binds `instrument_ref` to `symbol`, shadowing any earlier binding.
    pub fn insert(&mut self, instrument_ref: u32, symbol: String)
        ensures
            final(self)@ == old(self)@.insert(instrument_ref, symbol@),
    {
        let ghost old_entries = self.entries@;
        let ghost sym_view = symbol@;
        self.entries.push((instrument_ref, symbol));
        proof {
            assert(day_symbol_entries_view(self.entries@) =~= day_symbol_entries_view(
                old_entries,
            ).push((instrument_ref, sym_view)));
            lemma_assoc_map_push(day_symbol_entries_view(old_entries), instrument_ref, sym_view);
        }
    }

    /// The symbol bound to `instrument_ref`, if any.
    pub fn get(&self, instrument_ref: u32) -> (r: Option<String>)
        ensures
            match r {
                Some(symbol) => self@.contains_key(instrument_ref) && symbol@ == self@[instrument_ref],
                None => !self@.contains_key(instrument_ref),
            },
    {
        let ghost mapped = day_symbol_entries_view(self.entries@);
        let mut i: usize = self.entries.len();
        while i > 0
            invariant
                i <= self.entries.len(),
                mapped == day_symbol_entries_view(self.entries@),
                forall|j: int| i <= j < self.entries@.len() ==> self.entries@[j].0 != instrument_ref,
            decreases i,
        {
            i = i - 1;
            if self.entries[i].0 == instrument_ref {
                proof {
                    assert(forall|j: int| i < j < mapped.len() ==> mapped[j].0 != instrument_ref);
                    lemma_assoc_map_found(mapped, i as int, instrument_ref);
                }
                return Some(self.entries[i].1.clone());
            }
        }
        proof {
            assert(forall|j: int| 0 <= j < mapped.len() ==> mapped[j].0 != instrument_ref);
            lemma_assoc_map_absent(mapped, instrument_ref);
        }
        None
    }
}

/// The entries of a symbol table, as date keys and day-map views.
pub open spec fn symbol_table_entries_view(entries: Seq<(Date, DaySymbolMap)>) -> Seq<
    (Date, Map<u32, Seq<char>>),
> {
    entries.map_values(|p: (Date, DaySymbolMap)| (p.0, p.1@))
}

/// The date-indexed symbol table: for each calendar date, the symbols valid
/// on that date keyed by numeric instrument reference. Two levels, because
/// symbol-to-reference assignments may change across dates.
pub struct SymbolTable {
    entries: Vec<(Date, DaySymbolMap)>,
}

impl View for SymbolTable {
    type V = Map<Date, Map<u32, Seq<char>>>;

    closed spec fn view(&self) -> Map<Date, Map<u32, Seq<char>>> {
        assoc_map(symbol_table_entries_view(self.entries@))
    }
}

impl SymbolTable {
    /// A table with no dates.
    pub fn new() -> (t: SymbolTable)
        ensures
            t@ == Map::<Date, Map<u32, Seq<char>>>::empty(),
    {
        let t = SymbolTable { entries: Vec::new() };
        proof {
            assert(symbol_table_entries_view(t.entries@).len() == 0);
        }
        t
    }

    /// Binds `date` to that day's symbol map, shadowing any earlier binding.
    pub fn insert(&mut self, date: Date, symbols: DaySymbolMap)
        ensures
            final(self)@ == old(self)@.insert(date, symbols@),
    {
        let ghost old_entries = self.entries@;
        let ghost day_view = symbols@;
        self.entries.push((date, symbols));
        proof {
            assert(symbol_table_entries_view(self.entries@) =~= symbol_table_entries_view(
                old_entries,
            ).push((date, day_view)));
            lemma_assoc_map_push(symbol_table_entries_view(old_entries), date, day_view);
        }
    }

    /// The symbol bound to `instrument_ref` on `date`, if the table has an
    /// entry for that date and the date's map has one for that reference.
    pub fn get(&self, date: Date, instrument_ref: u32) -> (r: Option<String>)
        ensures
            match r {
                Some(symbol) => self@.contains_key(date) && self@[date].contains_key(instrument_ref)
                    && symbol@ == self@[date][instrument_ref],
                None => !self@.contains_key(date) || !self@[date].contains_key(instrument_ref),
            },
    {
        let ghost mapped = symbol_table_entries_view(self.entries@);
        let mut i: usize = self.entries.len();
        while i > 0
            invariant
                i <= self.entries.len(),
                mapped == symbol_table_entries_view(self.entries@),
                forall|j: int| i <= j < self.entries@.len() ==> self.entries@[j].0 != date,
            decreases i,
        {
            i = i - 1;
            if self.entries[i].0 == date {
                proof {
                    assert(forall|j: int| i < j < mapped.len() ==> mapped[j].0 != date);
                    lemma_assoc_map_found(mapped, i as int, date);
                }
                return self.entries[i].1.get(instrument_ref);
            }
        }
        proof {
            assert(forall|j: int| 0 <= j < mapped.len() ==> mapped[j].0 != date);
            lemma_assoc_map_absent(mapped, date);
        }
        None
    }
}

/// The entries of an exchange-override table, as symbol and venue views.
pub open spec fn override_entries_view(entries: Seq<(Symbol, Venue)>) -> Seq<
    (Seq<char>, Seq<char>),
> {
    entries.map_values(|p: (Symbol, Venue)| (p.0@, p.1@))
}

/// The exchange-override table: venues keyed by textual symbol that take
/// precedence over a publisher's default venue, for symbols whose true venue
/// the publisher-to-venue table cannot express.
pub struct ExchangeOverrideMap {
    entries: Vec<(Symbol, Venue)>,
}

impl View for ExchangeOverrideMap {
    type V = Map<Seq<char>, Seq<char>>;

    closed spec fn view(&self) -> Map<Seq<char>, Seq<char>> {
        assoc_map(override_entries_view(self.entries@))
    }
}

impl ExchangeOverrideMap {
    /// A table with no overrides.
    pub fn new() -> (m: ExchangeOverrideMap)
        ensures
            m@ == Map::<Seq<char>, Seq<char>>::empty(),
    {
        let m = ExchangeOverrideMap { entries: Vec::new() };
        proof {
            assert(override_entries_view(m.entries@).len() == 0);
        }
        m
    }

    /// Binds `symbol` to `venue`, shadowing any earlier binding.
    pub fn insert(&mut self, symbol: Symbol, venue: Venue)
        ensures
            final(self)@ == old(self)@.insert(symbol@, venue@),
    {
        let ghost old_entries = self.entries@;
        let ghost sym_view = symbol@;
        let ghost venue_view = venue@;
        self.entries.push((symbol, venue));
        proof {
            assert(override_entries_view(self.entries@) =~= override_entries_view(
                old_entries,
            ).push((sym_view, venue_view)));
            lemma_assoc_map_push(override_entries_view(old_entries), sym_view, venue_view);
        }
    }

    /// The override venue for `symbol`, if any.
    pub fn get(&self, symbol: &Symbol) -> (r: Option<Venue>)
        ensures
            match r {
                Some(venue) => self@.contains_key(symbol@) && venue@ == self@[symbol@],
                None => !self@.contains_key(symbol@),
            },
    {
        let ghost mapped = override_entries_view(self.entries@);
        let mut i: usize = self.entries.len();
        while i > 0
            invariant
                i <= self.entries.len(),
                mapped == override_entries_view(self.entries@),
                forall|j: int| i <= j < self.entries@.len() ==> self.entries@[j].0@ != symbol@,
            decreases i,
        {
            i = i - 1;
            if self.entries[i].0.value == symbol.value {
                proof {
                    assert(forall|j: int| i < j < mapped.len() ==> mapped[j].0 != symbol@);
                    lemma_assoc_map_found(mapped, i as int, symbol@);
                }
                return Some(self.entries[i].1.clone());
            }
        }
        proof {
            assert(forall|j: int| 0 <= j < mapped.len() ==> mapped[j].0 != symbol@);
            lemma_assoc_map_absent(mapped, symbol@);
        }
        None
    }
}

} // verus!
