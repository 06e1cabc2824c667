//! A cache of values keyed by strings, and the message announcing a new win count.
use vstd::prelude::*;
use vstd::hash_map::StringHashMap;
use crate::steam::OwnedGames;

verus! {

/// Values of type `T` kept under string keys.
#[verifier::reject_recursive_types(T)]
pub struct Cache<T> {
    map: StringHashMap<T>,
}

impl<T> View for Cache<T> {
    type V = Map<Seq<char>, T>;

    closed spec fn view(&self) -> Map<Seq<char>, T> {
        self.map@
    }
}

impl<T> Cache<T> {
    /// An empty cache.
    pub fn new() -> (r: Self)
        ensures
            r@ == Map::<Seq<char>, T>::empty(),
    {
        Cache { map: StringHashMap::new() }
    }

    /// Stores `value` under `key`, replacing what was stored there.
    pub fn insert(&mut self, key: String, value: T)
        ensures
            final(self)@ == old(self)@.insert(key@, value),
    {
        self.map.insert(key, value);
    }

    /// A copy of the value stored under `key`, if there is one.
    pub fn get(&self, key: &str) -> (r: Option<T>)
        where
            T: Clone,
        ensures
            r is Some <==> self@.contains_key(key@),
            r matches Some(v) ==> cloned::<T>(self@[key@], v),
    {
        match self.map.get(key) {
            Some(v) => Some(v.clone()),
            None => None,
        }
    }
}

/// Reading a key gives back what the last write to it stored.
pub proof fn law_read_after_write<T>(before: Map<Seq<char>, T>, key: Seq<char>, value: T)
    ensures
        before.insert(key, value).contains_key(key),
        before.insert(key, value)[key] == value,
{
}

/// A write to one key leaves every other key as it was.
pub proof fn law_write_leaves_other_keys<T>(
    before: Map<Seq<char>, T>,
    key: Seq<char>,
    value: T,
    other: Seq<char>,
)
    requires
        other != key,
    ensures
        before.insert(key, value).contains_key(other) == before.contains_key(other),
        before.contains_key(other) ==> before.insert(key, value)[other] == before[other],
{
}

/// Owned-games answers, by account.
pub type GamesState = Cache<OwnedGames>;

/// The message announcing a new win count.
pub struct WinsMessage {
    pub wins: u32,
}

} // verus!
