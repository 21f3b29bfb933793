//! Reading a concatenated `BASEQUOTE` symbol against a list of known quote
//! assets, the scheme that Binance and Bybit symbols share.

use vstd::prelude::*;
use crate::domain::types::{PairView, TradingPair};
use crate::text::{chars_to_string, ends_with, strip_all_suffix, strip_all_suffix_chars};

verus! {

/// The pair read from `symbol` by trying each quote of `quotes` in turn: the
/// first quote that ends the symbol and leaves a non-empty base once every
/// trailing repetition of it is removed.
pub open spec fn split_symbol(symbol: Seq<char>, quotes: Seq<Seq<char>>) -> Option<PairView>
    decreases quotes.len(),
{
    if quotes.len() == 0 {
        None
    } else {
        let q = quotes[0];
        let base = strip_all_suffix(symbol, q);
        if q.is_suffix_of(symbol) && base.len() > 0 {
            Some(PairView { base, quote: q })
        } else {
            split_symbol(symbol, quotes.drop_first())
        }
    }
}

/// No quote of the list ends another one.
pub open spec fn quotes_distinct_endings(quotes: Seq<Seq<char>>) -> bool {
    forall|i: int, j: int|
        0 <= i < quotes.len() && 0 <= j < quotes.len() && i != j ==> !(#[trigger] quotes[i]).is_suffix_of(
            #[trigger] quotes[j],
        )
}

/// A suffix shares its last two characters with the text it ends.
pub proof fn lemma_suffix_last_two(a: Seq<char>, b: Seq<char>)
    requires
        a.is_suffix_of(b),
        a.len() >= 2,
    ensures
        a.last() == b.last(),
        a[a.len() - 2] == b[b.len() - 2],
{
    let d = b.len() - a.len();
    assert(a[a.len() - 1] == b.subrange(d, b.len() as int)[a.len() - 1]);
    assert(a[a.len() - 2] == b.subrange(d, b.len() as int)[a.len() - 2]);
}

/// Of two texts that end a third, the shorter ends the longer.
pub proof fn lemma_suffix_of_suffix(a: Seq<char>, b: Seq<char>, s: Seq<char>)
    requires
        a.is_suffix_of(s),
        b.is_suffix_of(s),
        a.len() <= b.len(),
    ensures
        a.is_suffix_of(b),
{
    let da = s.len() - a.len();
    let db = s.len() - b.len();
    assert forall|k: int| 0 <= k < a.len() implies a[k] == b.subrange(
        b.len() - a.len(),
        b.len() as int,
    )[k] by {
        assert(a[k] == s.subrange(da, s.len() as int)[k]);
        assert(b[b.len() - a.len() + k] == s.subrange(db, s.len() as int)[b.len() - a.len() + k]);
    }
    assert(a =~= b.subrange(b.len() - a.len(), b.len() as int));
}

/// Removing every trailing repetition of `q` from `base + q` leaves `base`
/// when `base` does not itself end with `q`.
pub proof fn lemma_strip_joined_quote(base: Seq<char>, q: Seq<char>)
    requires
        q.len() > 0,
        !q.is_suffix_of(base),
    ensures
        strip_all_suffix(base + q, q) == base,
{
    let s = base + q;
    assert(s.subrange(base.len() as int, s.len() as int) =~= q);
    assert(q.is_suffix_of(s));
    assert(s.take(s.len() - q.len()) =~= base);
    assert(strip_all_suffix(base, q) == base);
}

/// Reading `base + q` against a list that holds `q`, whose quotes are
/// non-empty and never end one another, gives back `base` and `q`, when
/// `base` is non-empty and does not itself end with `q`.
pub proof fn lemma_split_symbol_of_join(base: Seq<char>, q: Seq<char>, quotes: Seq<Seq<char>>)
    requires
        quotes.contains(q),
        forall|i: int| 0 <= i < quotes.len() ==> (#[trigger] quotes[i]).len() > 0,
        quotes_distinct_endings(quotes),
        base.len() > 0,
        !q.is_suffix_of(base),
    ensures
        split_symbol(base + q, quotes) == Some(PairView { base, quote: q }),
    decreases quotes.len(),
{
    let s = base + q;
    let q0 = quotes[0];
    assert(q.is_suffix_of(s)) by {
        assert(s.subrange(base.len() as int, s.len() as int) =~= q);
    }
    if q0 == q {
        lemma_strip_joined_quote(base, q);
    } else {
        let k = choose|k: int| 0 <= k < quotes.len() && quotes[k] == q;
        assert(k != 0);
        if q0.is_suffix_of(s) {
            if q0.len() <= q.len() {
                lemma_suffix_of_suffix(q0, q, s);
                assert(!quotes[0].is_suffix_of(quotes[k]));
            } else {
                lemma_suffix_of_suffix(q, q0, s);
                assert(!quotes[k].is_suffix_of(quotes[0]));
            }
        }
        let rest = quotes.drop_first();
        assert(rest[k - 1] == q);
        assert forall|i: int, j: int|
            0 <= i < rest.len() && 0 <= j < rest.len() && i != j implies !(#[trigger] rest[i]).is_suffix_of(
            #[trigger] rest[j],
        ) by {
            assert(rest[i] == quotes[i + 1] && rest[j] == quotes[j + 1]);
        }
        assert forall|i: int| 0 <= i < rest.len() implies (#[trigger] rest[i]).len() > 0 by {
            assert(rest[i] == quotes[i + 1]);
        }
        lemma_split_symbol_of_join(base, q, rest);
    }
}

/// `split_symbol`, computed.
pub fn split_symbol_chars(symbol: &Vec<char>, quotes: &Vec<Vec<char>>) -> (r: Option<TradingPair>)
    ensures
        match r {
            Some(p) => split_symbol(symbol@, quotes@.map_values(|q: Vec<char>| q@)) == Some(p@),
            None => split_symbol(symbol@, quotes@.map_values(|q: Vec<char>| q@)) is None,
        },
{
    let ghost qs = quotes@.map_values(|q: Vec<char>| q@);
    let mut i: usize = 0;
    assert(qs.skip(0) =~= qs);
    while i < quotes.len()
        invariant
            i <= quotes@.len(),
            qs == quotes@.map_values(|q: Vec<char>| q@),
            split_symbol(symbol@, qs) == split_symbol(symbol@, qs.skip(i as int)),
        decreases quotes.len() - i,
    {
        let q = &quotes[i];
        assert(qs.skip(i as int)[0] == q@);
        assert(qs.skip(i as int).drop_first() =~= qs.skip(i + 1));
        if ends_with(symbol, q) {
            let base = strip_all_suffix_chars(symbol, q);
            if base.len() > 0 {
                return Some(TradingPair { base: chars_to_string(&base), quote: chars_to_string(q) });
            }
        }
        i = i + 1;
    }
    assert(qs.skip(i as int).len() == 0);
    None
}

} // verus!
