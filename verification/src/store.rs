//! The data store: an in-memory table of records, filled once and then
//! only read. A search returns exactly the records whose name starts
//! with the term, case-insensitively, in store order.

use vstd::prelude::*;
use crate::matching::{name_matches, prefix_matches};

verus! {

/// One row of the store: a record holding only a name.
pub struct Song {
    pub name: String,
}

impl Clone for Song {
    fn clone(&self) -> (copy: Song)
        ensures
            copy == *self,
    {
        Song { name: self.name.clone() }
    }
}

/// The predicate a search for `term` applies to each stored record.
pub open spec fn matches_term(term: Seq<char>) -> spec_fn(Song) -> bool {
    |s: Song| prefix_matches(term, s.name@)
}

/// What a search for `term` over the records `songs` returns: exactly
/// the records whose name starts with `term`, case-insensitively, in
/// store order.
pub open spec fn search_results(songs: Seq<Song>, term: Seq<char>) -> Seq<Song> {
    songs.filter(matches_term(term))
}

/// The searchable table. Records are added while the store is loaded
/// and only read afterwards.
pub struct Store {
    songs: Vec<Song>,
}

impl View for Store {
    type V = Seq<Song>;

    closed spec fn view(&self) -> Seq<Song> {
        self.songs@
    }
}

impl Store {
    /// An empty store.
    pub fn new() -> (store: Store)
        ensures
            store@ == Seq::<Song>::empty(),
    {
        Store { songs: Vec::new() }
    }

    /// Appends one record.
    pub fn add(&mut self, song: Song)
        ensures
            final(self)@ == old(self)@.push(song),
    {
        self.songs.push(song);
    }

    /// How many records the store holds.
    pub fn len(&self) -> (n: usize)
        ensures
            n == self@.len(),
    {
        self.songs.len()
    }

    /// All records whose name starts with `term`, case-insensitively,
    /// in store order.
    pub fn search(&self, term: &str) -> (results: Vec<Song>)
        ensures
            results@ == search_results(self@, term@),
    {
        let mut results: Vec<Song> = Vec::new();
        let mut i: usize = 0;
        while i < self.songs.len()
            invariant
                i <= self.songs@.len(),
                results@ == search_results(self.songs@.take(i as int), term@),
            decreases self.songs@.len() - i,
        {
            let song = &self.songs[i];
            proof {
                lemma_search_results_step(self.songs@, term@, i as int);
            }
            if name_matches(term, song.name.as_str()) {
                results.push(song.clone());
            }
            i += 1;
        }
        proof {
            assert(self.songs@.take(self.songs@.len() as int) =~= self.songs@);
        }
        results
    }
}

/// Scanning one more record extends the results with that record
/// exactly when its name matches the term.
proof fn lemma_search_results_step(songs: Seq<Song>, term: Seq<char>, i: int)
    requires
        0 <= i < songs.len(),
    ensures
        matches_term(term)(songs[i]) ==> search_results(songs.take(i + 1), term)
            == search_results(songs.take(i), term).push(songs[i]),
        !matches_term(term)(songs[i]) ==> search_results(songs.take(i + 1), term)
            == search_results(songs.take(i), term),
{
    reveal(Seq::filter);
    let pred = matches_term(term);
    let prefix = songs.take(i + 1);
    assert(prefix.drop_last() =~= songs.take(i));
    if pred(songs[i]) {
        assert(search_results(songs.take(i + 1), term) =~= search_results(
            songs.take(i),
            term,
        ).push(songs[i]));
    }
}

} // verus!
