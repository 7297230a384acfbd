//! The read path: what a reader sees when it asks for a league.

use crate::cache::Cache;
use crate::cache::Snapshot;
use crate::fetch::committed;
use crate::fetch::committed_all;
use crate::fetch::Arrival;
use crate::fetch::FetchError;
use crate::leagues::has_key;
use crate::leagues::Entries;
use crate::leagues::KeySet;
use crate::models::Match;
use crate::text::lowercase;
use crate::text::lowercase_of;
use vstd::prelude::*;

verus! {

/// The answer to a lookup, with the matches as a sequence.
pub enum Lookup {
    /// The key, folded to lower case, is no tracked league.
    InvalidKey,
    /// The league is tracked and nothing is stored for it.
    NoData,
    /// The league is tracked and these matches are stored for it.
    Data(Seq<Match>),
}

/// What a reader sees for `raw_key` when `keys` are tracked and the cache
/// holds `cache`.
pub open spec fn looked_up(keys: Entries, cache: Snapshot, raw_key: Seq<char>) -> Lookup {
    let folded = lowercase_of(raw_key);
    if !has_key(keys, folded) {
        Lookup::InvalidKey
    } else if !cache.contains_key(folded) {
        Lookup::NoData
    } else {
        Lookup::Data(cache[folded])
    }
}

/// The answer to a lookup.
#[derive(Clone, Copy, Debug, PartialEq, Eq)]
pub enum LookupResult<'a> {
    /// The key, folded to lower case, is no tracked league.
    InvalidKey,
    /// The league is tracked and nothing is stored for it.
    NoData,
    /// The league is tracked and these matches are stored for it.
    Data(&'a Vec<Match>),
}

impl<'a> View for LookupResult<'a> {
    type V = Lookup;

    open spec fn view(&self) -> Lookup {
        match *self {
            LookupResult::InvalidKey => Lookup::InvalidKey,
            LookupResult::NoData => Lookup::NoData,
            LookupResult::Data(records) => Lookup::Data(records@),
        }
    }
}

/// Looks `raw_key` up, in whatever case it is written.
pub fn lookup<'a>(keys: &KeySet, cache: &'a Cache, raw_key: &str) -> (r: LookupResult<'a>)
    ensures
        r@ == looked_up(keys@, cache@, raw_key@),
{
    let folded = lowercase(raw_key);
    if !keys.contains(folded.as_str()) {
        return LookupResult::InvalidKey;
    }
    match cache.get_folded(folded.as_str()) {
        Some(records) => LookupResult::Data(records),
        None => LookupResult::NoData,
    }
}

/// A key that is no tracked league after folding is invalid, whatever the
/// cache holds.
pub proof fn lemma_untracked_key_is_invalid(keys: Entries, cache: Snapshot, raw_key: Seq<char>)
    requires
        !has_key(keys, lowercase_of(raw_key)),
    ensures
        looked_up(keys, cache, raw_key) == Lookup::InvalidKey,
{
}

/// A key is invalid only if it is no tracked league after folding, whatever
/// the cache holds.
pub proof fn lemma_tracked_key_is_valid(keys: Entries, cache: Snapshot, raw_key: Seq<char>)
    requires
        has_key(keys, lowercase_of(raw_key)),
    ensures
        looked_up(keys, cache, raw_key) != Lookup::InvalidKey,
{
}

/// Two spellings that fold to the same key are looked up alike.
pub proof fn lemma_lookup_ignores_case(
    keys: Entries,
    cache: Snapshot,
    one: Seq<char>,
    other: Seq<char>,
)
    requires
        lowercase_of(one) == lowercase_of(other),
    ensures
        looked_up(keys, cache, one) == looked_up(keys, cache, other),
{
}

/// After a fetch for a tracked league brought an empty list, the league has
/// no data, whatever was stored before.
pub proof fn lemma_empty_fetch_leaves_no_data(
    keys: Entries,
    cache: Snapshot,
    key: Seq<char>,
    outcome: Result<Vec<Match>, FetchError>,
)
    requires
        has_key(keys, lowercase_of(key)),
        outcome matches Ok(records) && records@.len() == 0,
    ensures
        looked_up(keys, committed(cache, key, outcome), key) == Lookup::NoData,
{
}

/// After a fetch for a tracked league brought matches, a lookup gives those
/// matches.
pub proof fn lemma_fetched_matches_are_served(
    keys: Entries,
    cache: Snapshot,
    key: Seq<char>,
    outcome: Result<Vec<Match>, FetchError>,
)
    requires
        has_key(keys, lowercase_of(key)),
        outcome matches Ok(records) && records@.len() > 0,
    ensures
        looked_up(keys, committed(cache, key, outcome), key) == Lookup::Data(outcome->Ok_0@),
{
}

/// A failed fetch changes the answer to no lookup.
pub proof fn lemma_failed_fetch_changes_nothing(
    keys: Entries,
    cache: Snapshot,
    key: Seq<char>,
    outcome: Result<Vec<Match>, FetchError>,
    raw_key: Seq<char>,
)
    requires
        outcome is Err,
    ensures
        committed(cache, key, outcome) == cache,
        looked_up(keys, committed(cache, key, outcome), raw_key) == looked_up(keys, cache, raw_key),
{
}

/// The outcome of a fetch for one league changes the answer for no league
/// that folds to another key.
pub proof fn lemma_fetch_leaves_other_leagues(
    keys: Entries,
    cache: Snapshot,
    key: Seq<char>,
    outcome: Result<Vec<Match>, FetchError>,
    raw_key: Seq<char>,
)
    requires
        lowercase_of(key) != lowercase_of(raw_key),
    ensures
        looked_up(keys, committed(cache, key, outcome), raw_key) == looked_up(keys, cache, raw_key),
{
}

/// Whether every league that the cache holds has at least one match.
pub open spec fn populated(cache: Snapshot) -> bool {
    forall|key: Seq<char>| cache.contains_key(key) ==> (#[trigger] cache[key]).len() > 0
}

/// Committing an outcome never stores an empty list: a league without
/// matches is absent from the cache.
pub proof fn lemma_commit_stores_no_empty_list(
    cache: Snapshot,
    key: Seq<char>,
    outcome: Result<Vec<Match>, FetchError>,
)
    requires
        populated(cache),
    ensures
        populated(committed(cache, key, outcome)),
{
}

/// A cache that is filled by fetches alone holds no empty list, however many
/// arrive.
pub proof fn lemma_arrivals_store_no_empty_list(cache: Snapshot, arrivals: Seq<Arrival>)
    requires
        populated(cache),
    ensures
        populated(committed_all(cache, arrivals)),
    decreases arrivals.len(),
{
    if arrivals.len() > 0 {
        lemma_arrivals_store_no_empty_list(cache, arrivals.drop_last());
        lemma_commit_stores_no_empty_list(
            committed_all(cache, arrivals.drop_last()),
            arrivals.last().0,
            arrivals.last().1,
        );
    }
}

/// Two fetches for leagues that fold to different keys may arrive in either
/// order: the cache ends up the same.
pub proof fn lemma_arrivals_of_different_leagues_commute(
    cache: Snapshot,
    one: Arrival,
    other: Arrival,
)
    requires
        lowercase_of(one.0) != lowercase_of(other.0),
    ensures
        committed(committed(cache, one.0, one.1), other.0, other.1) == committed(
            committed(cache, other.0, other.1),
            one.0,
            one.1,
        ),
{
    assert(committed(committed(cache, one.0, one.1), other.0, other.1) =~= committed(
        committed(cache, other.0, other.1),
        one.0,
        one.1,
    ));
}

/// Whether the arrival is a fetch for the league that `raw_key` folds to,
/// and did not fail.
pub open spec fn decides(arrival: Arrival, raw_key: Seq<char>) -> bool {
    lowercase_of(arrival.0) == lowercase_of(raw_key) && arrival.1 is Ok
}

/// However many fetches arrive and in whatever order, a tracked league shows
/// what its latest fetch that did not fail brought: those matches, or no data
/// where the list was empty. Failures and the fetches of other leagues that
/// arrive later change nothing.
pub proof fn lemma_latest_success_is_served(
    keys: Entries,
    cache: Snapshot,
    arrivals: Seq<Arrival>,
    latest: int,
    raw_key: Seq<char>,
)
    requires
        has_key(keys, lowercase_of(raw_key)),
        0 <= latest < arrivals.len(),
        decides(arrivals[latest], raw_key),
        forall|later: int| latest < later < arrivals.len() ==> !decides(#[trigger] arrivals[later], raw_key),
    ensures
        looked_up(keys, committed_all(cache, arrivals), raw_key) == (if arrivals[latest].1->Ok_0@.len()
            > 0 {
            Lookup::Data(arrivals[latest].1->Ok_0@)
        } else {
            Lookup::NoData
        }),
    decreases arrivals.len(),
{
    let earlier = arrivals.drop_last();
    if latest < arrivals.len() - 1 {
        assert(!decides(arrivals[arrivals.len() - 1], raw_key));
        assert forall|later: int| latest < later < earlier.len() implies !decides(
            #[trigger] earlier[later],
            raw_key,
        ) by {
            assert(earlier[later] == arrivals[later]);
        }
        assert(earlier[latest] == arrivals[latest]);
        lemma_latest_success_is_served(keys, cache, earlier, latest, raw_key);
    }
}

/// Where no fetch for a league has arrived but failed ones, the league shows
/// what it showed before.
pub proof fn lemma_without_success_nothing_changes(
    keys: Entries,
    cache: Snapshot,
    arrivals: Seq<Arrival>,
    raw_key: Seq<char>,
)
    requires
        forall|i: int| 0 <= i < arrivals.len() ==> !decides(#[trigger] arrivals[i], raw_key),
    ensures
        looked_up(keys, committed_all(cache, arrivals), raw_key) == looked_up(keys, cache, raw_key),
    decreases arrivals.len(),
{
    if arrivals.len() > 0 {
        let earlier = arrivals.drop_last();
        assert(!decides(arrivals[arrivals.len() - 1], raw_key));
        assert forall|i: int| 0 <= i < earlier.len() implies !decides(#[trigger] earlier[i], raw_key) by {
            assert(earlier[i] == arrivals[i]);
        }
        lemma_without_success_nothing_changes(keys, cache, earlier, raw_key);
    }
}

} // verus!
