//! Laws of the search: what every reply contains, stated over the
//! mathematical model and proved once for all stores and terms.

use vstd::prelude::*;
use crate::matching::prefix_matches;
use crate::store::{matches_term, search_results, Song};

verus! {

/// A filter keeps every element the predicate accepts, so a filter
/// over an all-accepting predicate returns the sequence unchanged.
proof fn lemma_filter_all(s: Seq<Song>, pred: spec_fn(Song) -> bool)
    requires
        forall|i: int| 0 <= i < s.len() ==> pred(#[trigger] s[i]),
    ensures
        s.filter(pred) == s,
    decreases s.len(),
{
    reveal(Seq::filter);
    if s.len() == 0 {
        assert(s.filter(pred) =~= s);
    } else {
        lemma_filter_all(s.drop_last(), pred);
        assert(s.filter(pred) =~= s);
    }
}

/// A filter keeps no element the predicate rejects, so a filter over
/// an all-rejecting predicate returns nothing.
proof fn lemma_filter_none(s: Seq<Song>, pred: spec_fn(Song) -> bool)
    requires
        forall|i: int| 0 <= i < s.len() ==> !pred(#[trigger] s[i]),
    ensures
        s.filter(pred) == Seq::<Song>::empty(),
    decreases s.len(),
{
    reveal(Seq::filter);
    if s.len() == 0 {
        assert(s.filter(pred) =~= Seq::<Song>::empty());
    } else {
        lemma_filter_none(s.drop_last(), pred);
        assert(s.filter(pred) =~= Seq::<Song>::empty());
    }
}

/// Every element of a filtered sequence occurs in the sequence it was
/// filtered from.
proof fn lemma_filter_from(s: Seq<Song>, pred: spec_fn(Song) -> bool)
    ensures
        forall|j: int|
            0 <= j < s.filter(pred).len() ==> s.contains(#[trigger] s.filter(pred)[j]),
    decreases s.len(),
{
    reveal(Seq::filter);
    if s.len() > 0 {
        lemma_filter_from(s.drop_last(), pred);
        let f = s.filter(pred);
        let fd = s.drop_last().filter(pred);
        assert forall|j: int| 0 <= j < f.len() implies s.contains(#[trigger] f[j]) by {
            if j < fd.len() {
                assert(fd[j] == f[j]);
                let k = choose|k: int| 0 <= k < s.drop_last().len() && s.drop_last()[k] == fd[j];
                assert(s[k] == f[j]);
            } else {
                assert(f[j] == s.last());
                assert(s[s.len() - 1] == f[j]);
            }
        }
    }
}

/// A search for `term` is exactly scoped to `term`: every returned
/// record is a stored record whose name starts with `term`
/// (case-insensitively), and every stored record whose name starts
/// with `term` is returned.
pub proof fn lemma_search_scoped(songs: Seq<Song>, term: Seq<char>)
    ensures
        forall|j: int|
            0 <= j < search_results(songs, term).len() ==> prefix_matches(
                term,
                (#[trigger] search_results(songs, term)[j]).name@,
            ),
        forall|j: int|
            0 <= j < search_results(songs, term).len() ==> songs.contains(
                #[trigger] search_results(songs, term)[j],
            ),
        forall|i: int|
            0 <= i < songs.len() && prefix_matches(term, (#[trigger] songs[i]).name@)
                ==> search_results(songs, term).contains(songs[i]),
{
    let pred = matches_term(term);
    let results = search_results(songs, term);
    assert forall|j: int| 0 <= j < results.len() implies prefix_matches(
        term,
        (#[trigger] results[j]).name@,
    ) by {
        songs.lemma_filter_pred(pred, j);
    }
    lemma_filter_from(songs, pred);
    assert forall|i: int|
        0 <= i < songs.len() && prefix_matches(term, (#[trigger] songs[i]).name@) implies results
        .contains(songs[i]) by {
        songs.lemma_filter_contains(pred, i);
    }
}

/// Whenever a stored name starts with the searched prefix
/// (case-insensitively), the search returns a record with that name.
pub proof fn lemma_search_finds_matching_name(songs: Seq<Song>, term: Seq<char>, i: int)
    requires
        0 <= i < songs.len(),
        prefix_matches(term, songs[i].name@),
    ensures
        exists|j: int|
            0 <= j < search_results(songs, term).len() && (#[trigger] search_results(
                songs,
                term,
            )[j]).name@ == songs[i].name@,
{
    let results = search_results(songs, term);
    songs.lemma_filter_contains(matches_term(term), i);
    let j = choose|j: int| 0 <= j < results.len() && results[j] == songs[i];
    assert(results[j].name@ == songs[i].name@);
}

/// When no stored name starts with the searched term, the search
/// returns nothing.
pub proof fn lemma_search_empty_when_no_match(songs: Seq<Song>, term: Seq<char>)
    requires
        forall|i: int| 0 <= i < songs.len() ==> !prefix_matches(term, (#[trigger] songs[i]).name@),
    ensures
        search_results(songs, term) == Seq::<Song>::empty(),
{
    lemma_filter_none(songs, matches_term(term));
}

/// Searching for the empty term returns every stored record, in store
/// order.
pub proof fn lemma_empty_term_returns_all(songs: Seq<Song>)
    ensures
        search_results(songs, Seq::<char>::empty()) == songs,
{
    lemma_filter_all(songs, matches_term(Seq::<char>::empty()));
}

/// Two connections searching the same store see independent,
/// correctly-scoped replies: each reply is a function of the shared
/// store and that connection's own term alone, it holds only records
/// matching that term, and it holds every stored record matching that
/// term.
pub proof fn lemma_connections_independent(songs: Seq<Song>, term_a: Seq<char>, term_b: Seq<char>)
    ensures
        forall|j: int|
            0 <= j < search_results(songs, term_a).len() ==> prefix_matches(
                term_a,
                (#[trigger] search_results(songs, term_a)[j]).name@,
            ),
        forall|i: int|
            0 <= i < songs.len() && prefix_matches(term_a, (#[trigger] songs[i]).name@)
                ==> search_results(songs, term_a).contains(songs[i]),
        forall|j: int|
            0 <= j < search_results(songs, term_b).len() ==> prefix_matches(
                term_b,
                (#[trigger] search_results(songs, term_b)[j]).name@,
            ),
        forall|i: int|
            0 <= i < songs.len() && prefix_matches(term_b, (#[trigger] songs[i]).name@)
                ==> search_results(songs, term_b).contains(songs[i]),
{
    lemma_search_scoped(songs, term_a);
    lemma_search_scoped(songs, term_b);
}

} // verus!
