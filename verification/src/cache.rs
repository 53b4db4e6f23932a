//! Memoisation of rendered tables in a sharded concurrent map.
//!
//! Reading takes the cache by shared reference and may run on many threads
//! at once; storing takes it by exclusive reference, which is what lets the
//! contracts speak of the entries before and after.

use vstd::prelude::*;
use dashmap::DashMap;
use crate::key::{key_of, BallisticKey, KeyModel};
use crate::record::DataProjectile;
use crate::table::{compute_ballistic, is_table, Row};
use crate::text::text_of;

verus! {

/// `dashmap::DashMap`, the sharded concurrent hash map; nothing inside it is
/// visible to the verifier.
#[verifier::external_type_specification]
#[verifier::external_body]
#[verifier::reject_recursive_types(K)]
#[verifier::reject_recursive_types(V)]
#[verifier::reject_recursive_types(S)]
pub struct ExDashMap<K, V, S>(DashMap<K, V, S>);

/// The entries that a map holds: each stored key, by what it stands for, with
/// the text stored under it. Keys are equal in the map exactly when they stand
/// for the same thing: that is what `BallisticKey`'s `==` computes, and its hash
/// is taken from the same fields.
pub uninterp spec fn stored(map: DashMap<BallisticKey, Option<String>>) -> Map<
    KeyModel,
    Option<Seq<char>>,
>;

/// The entries of a cache in which nothing has been stored.
pub open spec fn no_entries() -> Map<KeyModel, Option<Seq<char>>> {
    Map::empty()
}

/// `DashMap::new`: the map it returns holds no entry.
#[verifier::external_body]
fn map_new() -> (fresh: DashMap<BallisticKey, Option<String>>)
    ensures
        stored(fresh) == no_entries(),
{
    DashMap::new()
}

/// `DashMap::get`, with the value it refers to copied out and the reference
/// given back at once: the value stored under a key equal to `key`, or `None`
/// where the map holds no such key. The map is left as it was.
#[verifier::external_body]
fn map_get(map: &DashMap<BallisticKey, Option<String>>, key: &BallisticKey) -> (r: Option<Option<String>>)
    ensures
        r is Some == stored(*map).contains_key(key@),
        r is Some ==> text_of(r.unwrap()) == stored(*map)[key@],
{
    match map.get(key) {
        Some(entry) => Some(entry.value().clone()),
        None => None,
    }
}

/// `DashMap::insert`, its result dropped: afterwards the map holds `value`
/// under `key`, in place of what it held under an equal key, and every other
/// entry as before. The exclusive reference keeps every other thread out, so
/// that before and after are the only two states.
#[verifier::external_body]
fn map_insert(
    map: &mut DashMap<BallisticKey, Option<String>>,
    key: BallisticKey,
    value: Option<String>,
)
    ensures
        stored(*final(map)) == stored(*old(map)).insert(key@, text_of(value)),
{
    map.insert(key, value);
}

/// A cache of rendered tables. The case of no output is cached like any other.
pub struct BallisticCache {
    map: DashMap<BallisticKey, Option<String>>,
}

/// What one call of the cached computation does to the entries: a hit exactly
/// when the key was stored, then the stored text is the result and nothing
/// changes; on a miss the result is stored under the key.
pub open spec fn cached_step(
    before: Map<KeyModel, Option<Seq<char>>>,
    key: KeyModel,
    result: Option<Seq<char>>,
    hit: bool,
    after: Map<KeyModel, Option<Seq<char>>>,
) -> bool {
    &&& hit == before.contains_key(key)
    &&& hit ==> result == before[key] && after == before
    &&& !hit ==> after == before.insert(key, result)
}

impl BallisticCache {
    /// The entries of the cache.
    pub closed spec fn entries(&self) -> Map<KeyModel, Option<Seq<char>>> {
        stored(self.map)
    }

    /// A cache without entries.
    pub fn new() -> (cache: Self)
        ensures
            cache.entries() == no_entries(),
    {
        BallisticCache { map: map_new() }
    }

    /// The result stored under `key`, if there is one.
    pub fn get(&self, key: &BallisticKey) -> (r: Option<Option<String>>)
        ensures
            r is Some == self.entries().contains_key(key@),
            r is Some ==> text_of(r.unwrap()) == self.entries()[key@],
    {
        map_get(&self.map, key)
    }

    /// Stores `value` under `key`.
    pub fn insert(&mut self, key: BallisticKey, value: Option<String>)
        ensures
            final(self).entries() == old(self).entries().insert(key@, text_of(value)),
    {
        map_insert(&mut self.map, key, value);
    }
}

/// Builds the table of a projectile through the cache: a stored result is
/// returned as it is, without asking `simulate`; otherwise the table is built,
/// stored, and returned. The flag tells whether the result came from the cache.
pub fn compute_ballistic_cached<F: Fn(usize) -> Row>(
    proj: &DataProjectile,
    sensitivity: u64,
    cache: &mut BallisticCache,
    max_entries: usize,
    simulate: F,
) -> (r: (Option<String>, bool))
    requires
        forall|i: usize| i < max_entries ==> call_requires(simulate, (i,)),
    ensures
        cached_step(
            old(cache).entries(),
            key_of(*proj, sensitivity),
            text_of(r.0),
            r.1,
            final(cache).entries(),
        ),
        !r.1 ==> is_table(*proj, sensitivity, max_entries, simulate, r.0),
{
    let key = BallisticKey::new(proj, sensitivity);
    match cache.get(&key) {
        Some(found) => (found, true),
        None => {
            let result = compute_ballistic(proj, sensitivity, max_entries, simulate);
            let copy = copy_result(&result);
            cache.insert(key, copy);
            (result, false)
        },
    }
}

fn copy_result(result: &Option<String>) -> (r: Option<String>)
    ensures
        text_of(r) == text_of(*result),
{
    match result {
        Some(s) => Some(s.clone()),
        None => None,
    }
}

/// Asked twice for the same key, the cache misses at most once: the second
/// call is a hit, returns the text of the first, and leaves the entries as the
/// first call left them. If the key was not stored before, the first is a miss.
pub proof fn second_call_hits(
    before: Map<KeyModel, Option<Seq<char>>>,
    key: KeyModel,
    first: Option<Seq<char>>,
    first_hit: bool,
    between: Map<KeyModel, Option<Seq<char>>>,
    second: Option<Seq<char>>,
    second_hit: bool,
    after: Map<KeyModel, Option<Seq<char>>>,
)
    requires
        cached_step(before, key, first, first_hit, between),
        cached_step(between, key, second, second_hit, after),
    ensures
        second_hit,
        second == first,
        after == between,
        !before.contains_key(key) ==> !first_hit,
{
}

/// A stored entry is never replaced: whatever a call does, every key that was
/// stored before it is stored after it with the same text.
pub proof fn entries_are_kept(
    before: Map<KeyModel, Option<Seq<char>>>,
    key: KeyModel,
    result: Option<Seq<char>>,
    hit: bool,
    after: Map<KeyModel, Option<Seq<char>>>,
)
    requires
        cached_step(before, key, result, hit, after),
    ensures
        forall|k: KeyModel| #[trigger]
            before.contains_key(k) ==> after.contains_key(k) && after[k] == before[k],
        after.contains_key(key) && after[key] == result,
{
}

} // verus!
