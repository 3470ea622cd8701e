//! A conversion request, the cache key it is stored under and the address
//! its rates are asked at.

use vstd::prelude::*;
use vstd::string::*;

verus! {

/// The character that parts the fields of a cache key.
pub const KEY_SEPARATOR: char = '|';

/// A request to convert `amount` of the currency `base` into the currency
/// `target`.
///
/// `amount_text` is the amount written with six decimal places. It is the
/// caller's to supply, and it is what tells two amounts apart in the cache.
#[derive(Debug, PartialEq)]
pub struct ConversionRequest<V> {
    pub base: String,
    pub target: String,
    pub amount: V,
    pub amount_text: String,
}

/// The cache key of a request: base, target and written amount, parted by
/// the separator.
pub open spec fn key_text(base: Seq<char>, target: Seq<char>, amount_text: Seq<char>) -> Seq<
    char,
> {
    base + seq![KEY_SEPARATOR] + target + seq![KEY_SEPARATOR] + amount_text
}

/// The upstream address of the rate table of `base`.
pub open spec fn rates_url_text(base: Seq<char>) -> Seq<char> {
    "https://api.exchangerate-api.com/v4/latest/"@ + base
}

impl<V> ConversionRequest<V> {
    /// The cache key of this request, as a sequence of characters.
    pub open spec fn key(&self) -> Seq<char> {
        key_text(self.base@, self.target@, self.amount_text@)
    }

    /// Whether base and target are the same currency.
    pub open spec fn is_identity(&self) -> bool {
        self.base@ == self.target@
    }

    /// Builds the cache key of this request.
    pub fn cache_key(&self) -> (key: String)
        ensures
            key@ == self.key(),
    {
        proof {
            reveal_strlit("|");
            assert("|"@ == seq![KEY_SEPARATOR]);
        }
        let mut key = self.base.clone();
        key.append("|");
        key.append(self.target.as_str());
        key.append("|");
        key.append(self.amount_text.as_str());
        key
    }

    /// Builds the address at which upstream serves the rate table of the
    /// base currency.
    pub fn rates_url(&self) -> (url: String)
        ensures
            url@ == rates_url_text(self.base@),
    {
        let mut url = String::from_str("https://api.exchangerate-api.com/v4/latest/");
        url.append(self.base.as_str());
        url
    }
}

/// Two requests for the same pair of currencies whose written amounts differ
/// have different cache keys.
pub proof fn law_amounts_have_keys_of_their_own(
    base: Seq<char>,
    target: Seq<char>,
    amount_text: Seq<char>,
    other_amount_text: Seq<char>,
)
    requires
        amount_text != other_amount_text,
    ensures
        key_text(base, target, amount_text) != key_text(base, target, other_amount_text),
{
    let prefix = base + seq![KEY_SEPARATOR] + target + seq![KEY_SEPARATOR];
    let key = key_text(base, target, amount_text);
    let other_key = key_text(base, target, other_amount_text);
    if key == other_key {
        assert(key.subrange(prefix.len() as int, key.len() as int) =~= amount_text);
        assert(other_key.subrange(prefix.len() as int, other_key.len() as int)
            =~= other_amount_text);
    }
}

/// Where no currency code holds the separator, requests with the same cache
/// key agree in base, target and written amount.
pub proof fn law_equal_keys_mean_equal_requests(
    base: Seq<char>,
    target: Seq<char>,
    amount_text: Seq<char>,
    other_base: Seq<char>,
    other_target: Seq<char>,
    other_amount_text: Seq<char>,
)
    requires
        !base.contains(KEY_SEPARATOR),
        !target.contains(KEY_SEPARATOR),
        !other_base.contains(KEY_SEPARATOR),
        !other_target.contains(KEY_SEPARATOR),
        key_text(base, target, amount_text) == key_text(
            other_base,
            other_target,
            other_amount_text,
        ),
    ensures
        base == other_base,
        target == other_target,
        amount_text == other_amount_text,
{
    let tail = target + seq![KEY_SEPARATOR] + amount_text;
    let other_tail = other_target + seq![KEY_SEPARATOR] + other_amount_text;
    assert(key_text(base, target, amount_text) =~= base + seq![KEY_SEPARATOR] + tail);
    assert(key_text(other_base, other_target, other_amount_text) =~= other_base
        + seq![KEY_SEPARATOR] + other_tail);
    lemma_field_ends_at_separator(base, tail, other_base, other_tail);
    lemma_field_ends_at_separator(target, amount_text, other_target, other_amount_text);
}

/// Two texts that each begin with a field free of the separator, followed by
/// the separator, are equal only where the fields and what follows them are.
proof fn lemma_field_ends_at_separator(
    field: Seq<char>,
    rest: Seq<char>,
    other_field: Seq<char>,
    other_rest: Seq<char>,
)
    requires
        !field.contains(KEY_SEPARATOR),
        !other_field.contains(KEY_SEPARATOR),
    ensures
        field + seq![KEY_SEPARATOR] + rest == other_field + seq![KEY_SEPARATOR] + other_rest ==> field
            == other_field && rest == other_rest,
{
    let text = field + seq![KEY_SEPARATOR] + rest;
    let other_text = other_field + seq![KEY_SEPARATOR] + other_rest;
    if text == other_text {
        assert(text[field.len() as int] == KEY_SEPARATOR);
        assert(other_text[other_field.len() as int] == KEY_SEPARATOR);
        if field.len() < other_field.len() {
            assert(other_text[field.len() as int] == other_field[field.len() as int]);
            assert(other_field.contains(other_field[field.len() as int]));
        }
        if other_field.len() < field.len() {
            assert(text[other_field.len() as int] == field[other_field.len() as int]);
            assert(field.contains(field[other_field.len() as int]));
        }
        assert(field =~= text.subrange(0, field.len() as int));
        assert(other_field =~= other_text.subrange(0, other_field.len() as int));
        assert(rest =~= text.subrange(field.len() as int + 1, text.len() as int));
        assert(other_rest =~= other_text.subrange(
            other_field.len() as int + 1,
            other_text.len() as int,
        ));
    }
}

} // verus!
