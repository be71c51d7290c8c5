//! The cache of compiled shader modules: an `lru::LruCache` from the key of
//! a shader specification to the handle of its module.
//!
//! The contracts of the functions that call the outside crate are not
//! proved: they say what its source shows.

use vstd::prelude::*;

verus! {

/// The most entries that a cache may be made for.
pub const MAX_CACHE_CAPACITY: usize = 0x10_0000;

/// `lru::LruCache`, made known as a type of which nothing inside is seen.
#[verifier::external_type_specification]
#[verifier::external_body]
#[verifier::reject_recursive_types(K)]
#[verifier::reject_recursive_types(V)]
#[verifier::reject_recursive_types(S)]
pub struct ExLruCache<K, V, S>(lru::LruCache<K, V, S>);

/// `lru::DefaultHasher`, the hasher of a cache that is made with
/// The value of the entry that leaves when a value is put under a key: the
/// old entry of the key, or else, in a full cache, the entry that was used
/// longest ago.
pub open spec fn lru_left(entries: Seq<(Seq<u8>, u64)>, capacity: nat, key: Seq<u8>) -> Option<
    u64,
> {
    match lru_find(entries, key) {
        Some(i) => Some(entries[i].1),
        None => if entries.len() == capacity {
            Some(entries.last().1)
        } else {
            None
        },
    }
}

/// `lru::LruCache::new`, made known as a type of which nothing inside is
/// seen.
#[verifier::external_type_specification]
#[verifier::external_body]
pub struct ExLruHasher(lru::DefaultHasher);

/// The entries of a cache, the one that was used last first.
pub uninterp spec fn lru_entries(cache: lru::LruCache<Vec<u8>, u64>) -> Seq<(Seq<u8>, u64)>;

/// The number of entries that a cache was made for.
pub uninterp spec fn lru_capacity(cache: lru::LruCache<Vec<u8>, u64>) -> nat;

/// The place of the first entry with a key, if there is one.
pub open spec fn lru_find(entries: Seq<(Seq<u8>, u64)>, key: Seq<u8>) -> Option<int>
    decreases entries.len(),
{
    if entries.len() == 0 {
        None
    } else if entries[0].0 == key {
        Some(0)
    } else {
        match lru_find(entries.skip(1), key) {
            Some(i) => Some(i + 1),
            None => None,
        }
    }
}

/// The entries after the one at a place was used: it stands first.
pub open spec fn lru_touched(entries: Seq<(Seq<u8>, u64)>, i: int) -> Seq<(Seq<u8>, u64)> {
    seq![entries[i]] + entries.remove(i)
}

/// The value that was looked up under a key, if the key has an entry.
pub open spec fn lru_value(entries: Seq<(Seq<u8>, u64)>, key: Seq<u8>) -> Option<u64> {
    match lru_find(entries, key) {
        Some(i) => Some(entries[i].1),
        None => None,
    }
}

/// The entries after a key was looked up: its entry, if it has one, stands
/// first.
pub open spec fn lru_after_get(entries: Seq<(Seq<u8>, u64)>, key: Seq<u8>) -> Seq<(Seq<u8>, u64)> {
    match lru_find(entries, key) {
        Some(i) => lru_touched(entries, i),
        None => entries,
    }
}

/// The entries after a value was put under a key: the new entry stands
/// first; the old entry of the key is gone, or else, in a full cache, the
/// entry that was used longest ago.
pub open spec fn lru_after_put(
    entries: Seq<(Seq<u8>, u64)>,
    capacity: nat,
    key: Seq<u8>,
    value: u64,
) -> Seq<(Seq<u8>, u64)> {
    match lru_find(entries, key) {
        Some(i) => seq![(key, value)] + entries.remove(i),
        None => if entries.len() == capacity {
            seq![(key, value)] + entries.drop_last()
        } else {
            seq![(key, value)] + entries
        },
    }
}

/// `lru::LruCache::new`: an empty cache for `capacity` entries.
#[verifier::external_body]
pub(crate) fn lru_new(capacity: usize) -> (r: lru::LruCache<Vec<u8>, u64>)
    requires
        0 < capacity <= MAX_CACHE_CAPACITY,
    ensures
        lru_entries(r).len() == 0,
        lru_capacity(r) == capacity,
{
    lru::LruCache::new(std::num::NonZeroUsize::new(capacity).unwrap())
}

/// `lru::LruCache::get`: the value under a key, if the key has an entry,
/// which then counts as the one that was used last.
#[verifier::external_body]
pub(crate) fn lru_get(cache: &mut lru::LruCache<Vec<u8>, u64>, key: &Vec<u8>) -> (r: Option<u64>)
    ensures
        r == lru_value(lru_entries(*old(cache)), key@),
        lru_entries(*final(cache)) == lru_after_get(lru_entries(*old(cache)), key@),
        lru_capacity(*final(cache)) == lru_capacity(*old(cache)),
{
    cache.get(key).copied()
}

/// `lru::LruCache::push`: puts a value under a key and returns the value
/// of the entry that left: the one that was under the key before, or,
/// where the key is new and the cache is full, the one that was used
/// longest ago. Without such an entry it returns nothing.
#[verifier::external_body]
pub(crate) fn lru_push(cache: &mut lru::LruCache<Vec<u8>, u64>, key: Vec<u8>, value: u64) -> (r:
    Option<u64>)
    ensures
        r == lru_left(lru_entries(*old(cache)), lru_capacity(*old(cache)), key@),
        lru_entries(*final(cache)) == lru_after_put(
            lru_entries(*old(cache)),
            lru_capacity(*old(cache)),
            key@,
            value,
        ),
        lru_capacity(*final(cache)) == lru_capacity(*old(cache)),
{
    cache.push(key, value).map(|entry| entry.1)
}

} // verus!
