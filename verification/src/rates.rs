//! The rate table that the upstream source gives for a base currency.

use vstd::hash_map::StringHashMap;
use vstd::prelude::*;

verus! {

/// Rates by currency code, relative to one base currency. Its view is the
/// mapping from code to rate.
#[verifier::reject_recursive_types(V)]
pub struct RateTable<V> {
    rates: StringHashMap<V>,
}

impl<V> View for RateTable<V> {
    type V = Map<Seq<char>, V>;

    closed spec fn view(&self) -> Map<Seq<char>, V> {
        self.rates@
    }
}

/// The rate that a table gives for `code`, or none where it has no such
/// code.
pub open spec fn rate_of<V>(rates: Map<Seq<char>, V>, code: Seq<char>) -> Option<V> {
    if rates.contains_key(code) {
        Some(rates[code])
    } else {
        None
    }
}

impl<V> RateTable<V> {
    /// A table without rates.
    pub fn new() -> (table: Self)
        ensures
            table@ == Map::<Seq<char>, V>::empty(),
    {
        RateTable { rates: StringHashMap::new() }
    }

    /// Sets the rate of `code`, in place of an earlier one if there is one.
    pub fn insert(&mut self, code: String, rate: V)
        ensures
            final(self)@ == old(self)@.insert(code@, rate),
    {
        self.rates.insert(code, rate);
    }
}

impl<V: Copy> RateTable<V> {
    /// Looks up the rate of `code`.
    pub fn rate(&self, code: &str) -> (rate: Option<V>)
        ensures
            rate == rate_of(self@, code@),
    {
        match self.rates.get(code) {
            Some(rate) => Some(*rate),
            None => None,
        }
    }
}

} // verus!
