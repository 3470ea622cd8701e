//! The conversion service as a sequence of decisions.
//!
//! A conversion is driven by its caller: each function here takes what the
//! caller has learned so far and answers with the next `ConversionStep`. The
//! caller performs the step (it hands over the cache, asks upstream, or
//! multiplies) and comes back with the outcome.

use crate::cache::{lookup, stored, CacheEntry, ConversionCache, CACHE_TTL_SECS};
use crate::rates::{rate_of, RateTable};
use crate::request::{law_amounts_have_keys_of_their_own, rates_url_text, ConversionRequest};
use vstd::prelude::*;
use vstd::string::*;

verus! {

/// Why a conversion failed.
#[derive(Debug, PartialEq, Eq)]
pub enum ConversionError {
    /// The upstream table holds no rate for the target currency.
    TargetCurrencyNotFound { target: String },
    /// Upstream could not be reached, or its reply could not be decoded.
    Transport { message: String },
}

impl ConversionError {
    /// The message that describes this error to the caller.
    pub open spec fn message_text(&self) -> Seq<char> {
        match self {
            ConversionError::TargetCurrencyNotFound { target } => "Target currency "@ + target@
                + " not found"@,
            ConversionError::Transport { message } => message@,
        }
    }

    /// Writes out the message that describes this error.
    pub fn message(&self) -> (text: String)
        ensures
            text@ == self.message_text(),
    {
        match self {
            ConversionError::TargetCurrencyNotFound { target } => {
                let mut text = String::from_str("Target currency ");
                text.append(target.as_str());
                text.append(" not found");
                text
            },
            ConversionError::Transport { message } => message.clone(),
        }
    }
}

/// What the caller of a conversion does next.
#[derive(Debug, PartialEq)]
pub enum ConversionStep<V> {
    /// The conversion has succeeded with this value.
    Done(V),
    /// Hand the cache, if it can be had, to `resume_with_cache`.
    ConsultCache,
    /// Ask upstream at `url` for the rate table of the base currency and hand
    /// the reply to `resume_with_rates`.
    FetchRates { url: String },
    /// Multiply the amount by `rate` and hand the product to
    /// `resume_with_product`.
    Scale { rate: V },
    /// The conversion has failed.
    Failed(ConversionError),
}

/// Whether `step` asks upstream for the rate table of `base`.
pub open spec fn asks_upstream<V>(step: ConversionStep<V>, base: Seq<char>) -> bool {
    step matches ConversionStep::FetchRates { url } && url@ == rates_url_text(base)
}

impl<V: Copy> ConversionRequest<V> {
    /// Opens the conversion. A request whose base and target are the same
    /// currency is settled at once with its own amount; any other goes to the
    /// cache.
    pub fn start(&self) -> (step: ConversionStep<V>)
        ensures
            self.is_identity() ==> step == ConversionStep::Done(self.amount),
            !self.is_identity() ==> step == ConversionStep::<V>::ConsultCache,
    {
        if self.base == self.target {
            ConversionStep::Done(self.amount)
        } else {
            ConversionStep::ConsultCache
        }
    }

    /// Continues after the cache was asked for. A fresh entry under the
    /// request's key settles the conversion. Without one, or without the
    /// cache (`None`: it could not be had), upstream is asked.
    pub fn resume_with_cache(&self, cache: Option<&ConversionCache<V>>, now: u64) -> (step:
        ConversionStep<V>)
        ensures
            match cache {
                Some(store) => match lookup(store@, self.key(), now) {
                    Some(value) => step == ConversionStep::Done(value),
                    None => asks_upstream(step, self.base@),
                },
                None => asks_upstream(step, self.base@),
            },
    {
        let hit = match cache {
            Some(store) => {
                let key = self.cache_key();
                store.get(key.as_str(), now)
            },
            None => None,
        };
        match hit {
            Some(value) => ConversionStep::Done(value),
            None => ConversionStep::FetchRates { url: self.rates_url() },
        }
    }

    /// Continues after upstream was asked. `reply` is the rate table, or the
    /// message of the failure to get one. The rate of the target is to be
    /// multiplied in; a table without the target, and a failure, end the
    /// conversion.
    pub fn resume_with_rates(&self, reply: Result<RateTable<V>, String>) -> (step:
        ConversionStep<V>)
        ensures
            match reply {
                Ok(rates) => match rate_of(rates@, self.target@) {
                    Some(rate) => step == (ConversionStep::Scale { rate }),
                    None => step matches ConversionStep::Failed(
                        ConversionError::TargetCurrencyNotFound { target },
                    ) && target@ == self.target@,
                },
                Err(message) => step matches ConversionStep::Failed(
                    ConversionError::Transport { message: text },
                ) && text@ == message@,
            },
    {
        match reply {
            Ok(rates) => match rates.rate(self.target.as_str()) {
                Some(rate) => ConversionStep::Scale { rate },
                None => ConversionStep::Failed(
                    ConversionError::TargetCurrencyNotFound { target: self.target.clone() },
                ),
            },
            Err(message) => ConversionStep::Failed(ConversionError::Transport { message }),
        }
    }

    /// Ends a conversion whose product was computed: the product is written
    /// to the cache under the request's key, stamped `now`, and is the
    /// result. Without the cache (`None`: it could not be had) the write is
    /// left out.
    pub fn resume_with_product(
        &self,
        cache: Option<&mut ConversionCache<V>>,
        product: V,
        now: u64,
    ) -> (step: ConversionStep<V>)
        ensures
            step == ConversionStep::Done(product),
            cache matches Some(store) ==> final(store)@ == stored(
                store@,
                self.key(),
                product,
                now,
            ),
    {
        match cache {
            Some(store) => {
                let key = self.cache_key();
                store.set(key, product, now);
            },
            None => {},
        }
        ConversionStep::Done(product)
    }
}

/// A request whose product was written to the cache is settled from the
/// cache when it is made again before the entry's age reaches the time to
/// live: the read under its key yields the product.
pub proof fn law_repeated_request_is_served_from_cache<V>(
    entries: Map<Seq<char>, CacheEntry<V>>,
    request: ConversionRequest<V>,
    product: V,
    written_at: u64,
    asked_at: u64,
)
    requires
        asked_at - written_at < CACHE_TTL_SECS,
    ensures
        lookup(stored(entries, request.key(), product, written_at), request.key(), asked_at)
            == Some(product),
{
}

/// Two requests for the same pair of currencies whose written amounts differ
/// are cached apart: they have different keys, the product written for one
/// is an entry of its own, and whatever a read for the other yields after
/// that write, it yielded before.
pub proof fn law_different_amounts_are_cached_apart<V>(
    entries: Map<Seq<char>, CacheEntry<V>>,
    request: ConversionRequest<V>,
    other: ConversionRequest<V>,
    product: V,
    written_at: u64,
    asked_at: u64,
)
    requires
        request.base@ == other.base@,
        request.target@ == other.target@,
        request.amount_text@ != other.amount_text@,
    ensures
        request.key() != other.key(),
        stored(entries, request.key(), product, written_at).contains_key(request.key()),
        lookup(stored(entries, request.key(), product, written_at), other.key(), asked_at)
            is Some ==> lookup(
            stored(entries, request.key(), product, written_at),
            other.key(),
            asked_at,
        ) == lookup(entries, other.key(), asked_at),
{
    law_amounts_have_keys_of_their_own(
        request.base@,
        request.target@,
        request.amount_text@,
        other.amount_text@,
    );
}

} // verus!
