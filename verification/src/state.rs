//! State shared across requests: a cache per kind of value.
use vstd::prelude::*;
use crate::cache::Cache;
use crate::steam::OwnedGames;

verus! {

/// A cache shared across requests.
#[verifier::reject_recursive_types(T)]
pub struct State<T> {
    pub cache: Cache<T>,
}

impl<T> State<T> {
    /// State with an empty cache.
    pub fn new() -> (r: Self)
        ensures
            r.cache@ == Map::<Seq<char>, T>::empty(),
    {
        State { cache: Cache::new() }
    }
}

/// Owned-games answers, by account.
pub type GamesState = State<OwnedGames>;

/// Win counts, by key.
pub type WinsState = State<u32>;

} // verus!
