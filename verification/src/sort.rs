//! Stable ordering of merged results by provider name, the
//! order-normalization step of the aggregate strategy.

use vstd::prelude::*;
use crate::types::SearchResult;
use crate::utils::strings::{lemma_lex_le_total, lemma_lex_le_trans, lex_le, str_lex_le};

verus! {

/// The aggregate sort order: results are compared by provider name
/// alone, ascending, with results that name no provider first.
pub open spec fn key_le(a: SearchResult, b: SearchResult) -> bool {
    match (a.provider, b.provider) {
        (Option::None, _) => true,
        (Option::Some(x), Option::None) => false,
        (Option::Some(x), Option::Some(y)) => lex_le(x@, y@),
    }
}

/// The key order is total.
pub proof fn lemma_key_le_total(a: SearchResult, b: SearchResult)
    ensures
        key_le(a, b) || key_le(b, a),
{
    if a.provider is Some && b.provider is Some {
        lemma_lex_le_total(a.provider->0@, b.provider->0@);
    }
}

/// The key order is transitive.
pub proof fn lemma_key_le_trans(a: SearchResult, b: SearchResult, c: SearchResult)
    requires
        key_le(a, b),
        key_le(b, c),
    ensures
        key_le(a, c),
{
    if a.provider is Some && b.provider is Some && c.provider is Some {
        lemma_lex_le_trans(a.provider->0@, b.provider->0@, c.provider->0@);
    }
}

/// Compares two results by provider name.
pub fn result_key_le(a: &SearchResult, b: &SearchResult) -> (r: bool)
    ensures
        r == key_le(*a, *b),
{
    match (&a.provider, &b.provider) {
        (Option::None, _) => true,
        (Option::Some(_), Option::None) => false,
        (Option::Some(x), Option::Some(y)) => str_lex_le(
            crate::utils::strings::string_as_str(x),
            crate::utils::strings::string_as_str(y),
        ),
    }
}

/// Inserts `x` after every element whose key is less than or equal to
/// `x`'s key, so that an element inserted later stays after its equals.
pub open spec fn insert_ordered(x: SearchResult, s: Seq<SearchResult>) -> Seq<SearchResult>
    decreases s.len(),
{
    if s.len() == 0 {
        seq![x]
    } else if key_le(s[0], x) {
        seq![s[0]] + insert_ordered(x, s.drop_first())
    } else {
        seq![x] + s
    }
}

/// The stable sort of `s` by provider name: each element in turn is
/// inserted behind its equals in the sorted front of the sequence.
pub open spec fn sort_by_provider(s: Seq<SearchResult>) -> Seq<SearchResult>
    decreases s.len(),
{
    if s.len() == 0 {
        Seq::empty()
    } else {
        insert_ordered(s.last(), sort_by_provider(s.drop_last()))
    }
}

/// Whether `s` is ordered by provider name, ascending.
pub open spec fn sorted_by_provider(s: Seq<SearchResult>) -> bool {
    forall|i: int, j: int| 0 <= i < j < s.len() ==> key_le(s[i], s[j])
}

/// Insertion grows the sequence by exactly one element.
pub proof fn lemma_insert_ordered_len(x: SearchResult, s: Seq<SearchResult>)
    ensures
        insert_ordered(x, s).len() == s.len() + 1,
    decreases s.len(),
{
    if s.len() != 0 && key_le(s[0], x) {
        lemma_insert_ordered_len(x, s.drop_first());
    }
}

/// Every element of the insertion result is the inserted element or one
/// of the original ones.
proof fn lemma_insert_ordered_elems(x: SearchResult, s: Seq<SearchResult>)
    ensures
        forall|k: int|
            0 <= k < insert_ordered(x, s).len() ==> insert_ordered(x, s)[k] == x || s.contains(
                insert_ordered(x, s)[k],
            ),
    decreases s.len(),
{
    if s.len() != 0 && key_le(s[0], x) {
        lemma_insert_ordered_elems(x, s.drop_first());
        assert forall|k: int| 0 <= k < insert_ordered(x, s).len() implies insert_ordered(x, s)[k]
            == x || s.contains(insert_ordered(x, s)[k]) by {
            if k > 0 {
                let t = insert_ordered(x, s.drop_first());
                assert(insert_ordered(x, s)[k] == t[k - 1]);
                if t[k - 1] != x {
                    let y = t[k - 1];
                    let j = choose|j: int| 0 <= j < s.drop_first().len() && s.drop_first()[j] == y;
                    assert(s[j + 1] == y);
                }
            }
        }
    }
}

/// Inserting into an ordered sequence keeps it ordered.
pub proof fn lemma_insert_ordered_sorted(x: SearchResult, s: Seq<SearchResult>)
    requires
        sorted_by_provider(s),
    ensures
        sorted_by_provider(insert_ordered(x, s)),
    decreases s.len(),
{
    if s.len() == 0 {
    } else if key_le(s[0], x) {
        let rest = s.drop_first();
        assert(sorted_by_provider(rest)) by {
            assert(forall|i: int, j: int|
                0 <= i < j < rest.len() ==> rest[i] == s[i + 1] && rest[j] == s[j + 1]);
        }
        lemma_insert_ordered_sorted(x, rest);
        lemma_insert_ordered_elems(x, rest);
        let t = insert_ordered(x, rest);
        let whole = insert_ordered(x, s);
        assert forall|i: int, j: int| 0 <= i < j < whole.len() implies key_le(whole[i], whole[j])
            by {
            if i == 0 {
                assert(whole[0] == s[0]);
                assert(whole[j] == t[j - 1]);
                if t[j - 1] == x {
                } else {
                    let m = choose|m: int| 0 <= m < rest.len() && rest[m] == t[j - 1];
                    assert(key_le(s[0], s[m + 1]));
                }
            } else {
                assert(whole[i] == t[i - 1] && whole[j] == t[j - 1]);
            }
        }
    } else {
        lemma_key_le_total(s[0], x);
        let whole = insert_ordered(x, s);
        assert forall|i: int, j: int| 0 <= i < j < whole.len() implies key_le(whole[i], whole[j])
            by {
            if i == 0 {
                assert(whole[0] == x);
                assert(whole[j] == s[j - 1]);
                if j > 1 {
                    assert(key_le(s[0], s[j - 1]));
                    lemma_key_le_trans(x, s[0], s[j - 1]);
                }
            } else {
                assert(whole[i] == s[i - 1] && whole[j] == s[j - 1]);
            }
        }
    }
}

/// Sorting preserves the number of results.
pub proof fn lemma_sort_len(s: Seq<SearchResult>)
    ensures
        sort_by_provider(s).len() == s.len(),
    decreases s.len(),
{
    if s.len() != 0 {
        lemma_sort_len(s.drop_last());
        lemma_insert_ordered_len(s.last(), sort_by_provider(s.drop_last()));
    }
}

/// The sort's output is ordered by provider name.
pub proof fn lemma_sort_sorted(s: Seq<SearchResult>)
    ensures
        sorted_by_provider(sort_by_provider(s)),
    decreases s.len(),
{
    if s.len() != 0 {
        lemma_sort_sorted(s.drop_last());
        lemma_insert_ordered_sorted(s.last(), sort_by_provider(s.drop_last()));
    }
}

/// The insertion point for `x` in `s` is the first index whose element
/// does not compare at-or-below `x`.
proof fn lemma_insert_ordered_at(x: SearchResult, s: Seq<SearchResult>, j: int)
    requires
        0 <= j <= s.len(),
        forall|i: int| 0 <= i < j ==> key_le(s[i], x),
        j < s.len() ==> !key_le(s[j], x),
    ensures
        insert_ordered(x, s) == s.take(j) + seq![x] + s.skip(j),
    decreases j,
{
    if j == 0 {
        if s.len() == 0 {
            assert(insert_ordered(x, s) =~= s.take(0) + seq![x] + s.skip(0));
        } else {
            assert(insert_ordered(x, s) =~= s.take(0) + seq![x] + s.skip(0));
        }
    } else {
        let rest = s.drop_first();
        lemma_insert_ordered_at(x, rest, j - 1);
        assert(insert_ordered(x, s) == seq![s[0]] + insert_ordered(x, rest));
        assert(seq![s[0]] + (rest.take(j - 1) + seq![x] + rest.skip(j - 1)) =~= s.take(j) + seq![x]
            + s.skip(j));
    }
}

/// Sorts results by provider name, ascending, keeping the original
/// relative order of results from the same provider.
pub fn sort_results_by_provider(results: Vec<SearchResult>) -> (r: Vec<SearchResult>)
    ensures
        r@ == sort_by_provider(results@),
{
    let ghost orig = results@;
    let mut input = results;
    let mut out: Vec<SearchResult> = Vec::new();
    let ghost mut k: int = 0;
    proof {
        assert(orig.take(0) =~= Seq::<SearchResult>::empty());
        assert(orig.skip(0) =~= orig);
    }
    while input.len() > 0
        invariant
            0 <= k <= orig.len(),
            input@ == orig.skip(k),
            out@ == sort_by_provider(orig.take(k)),
        decreases input@.len(),
    {
        let x = input.remove(0);
        proof {
            assert(x == orig[k]);
            assert(orig.skip(k).skip(1) =~= orig.skip(k + 1));
        }
        let mut j: usize = 0;
        while j < out.len() && result_key_le(&out[j], &x)
            invariant
                j <= out@.len(),
                forall|i: int| 0 <= i < j ==> key_le(out@[i], x),
            decreases out@.len() - j,
        {
            j = j + 1;
        }
        proof {
            lemma_insert_ordered_at(x, out@, j as int);
        }
        let ghost out_before = out@;
        out.insert(j, x);
        proof {
            assert(out@ =~= out_before.take(j as int) + seq![x] + out_before.skip(j as int));
            assert(orig.take(k + 1).drop_last() =~= orig.take(k));
            assert(orig.take(k + 1).last() == orig[k]);
            k = k + 1;
        }
    }
    proof {
        assert(orig.take(orig.len() as int) =~= orig);
    }
    out
}

} // verus!
