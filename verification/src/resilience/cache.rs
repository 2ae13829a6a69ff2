//! The expirable cache: a bounded store, from a user to a list of texts,
//! whose entries expire.
//!
//! The store itself is a `moka::sync::Cache`. It decides by its own clock
//! and its own bookkeeping which entries it still holds, so the contracts
//! here speak of what was written to it: a read gives the value last
//! written for its key, or nothing.

use vstd::prelude::*;

verus! {

/// The longest time to live a cache can be made with: one thousand years of
/// 365 days, in milliseconds.
pub const MAX_TTL_MILLIS: u64 = 31_536_000_000_000;

/// `moka::sync::Cache`, the store behind [`ExpirableCache`]. Nothing is
/// known of a value of it but what the items below state.
#[verifier::external_type_specification]
#[verifier::external_body]
#[verifier::reject_recursive_types(K)]
#[verifier::reject_recursive_types(V)]
#[verifier::reject_recursive_types(S)]
pub struct ExMokaCache<K, V, S>(moka::sync::Cache<K, V, S>);

/// A cache's entries before anything is written to it.
pub open spec fn no_entries() -> Map<i64, Seq<Seq<char>>> {
    Map::empty()
}

/// The entries that were written to the cache and not discarded by its owner
/// since: each key with the value last written for it. The cache itself may
/// have dropped any of them, for want of room or because its time was up.
pub uninterp spec fn cache_written(cache: moka::sync::Cache<i64, Vec<String>>) -> Map<
    i64,
    Seq<Seq<char>>,
>;

/// The limits the cache was made with: the number of entries it holds at
/// most, and the time to live of an entry in milliseconds.
pub uninterp spec fn cache_limits(cache: moka::sync::Cache<i64, Vec<String>>) -> (u64, u64);

/// What a read of `key` may give when `entries` were written: nothing, or
/// the value written for `key`.
pub open spec fn readable(
    entries: Map<i64, Seq<Seq<char>>>,
    key: i64,
    found: Option<Seq<Seq<char>>>,
) -> bool {
    found matches Some(value) ==> entries.contains_key(key) && entries[key] == value
}

/// `moka::sync::Cache::builder`, with `max_capacity`, `time_to_live` and
/// `build`: a cache to which nothing was written yet, made with this
/// capacity and this time to live. `build` panics on a time to live of more
/// than a thousand years, which `requires` leaves out.
#[verifier::external_body]
fn cache_build(max_capacity: u64, ttl_millis: u64) -> (cache: moka::sync::Cache<i64, Vec<String>>)
    requires
        ttl_millis <= MAX_TTL_MILLIS,
    ensures
        cache_written(cache) == no_entries(),
        cache_limits(cache) == (max_capacity, ttl_millis),
{
    moka::sync::Cache::builder()
        .max_capacity(max_capacity)
        .time_to_live(std::time::Duration::from_millis(ttl_millis))
        .build()
}

/// `moka::sync::Cache::insert`: `value` is now what was last written for
/// `key`; the other entries and the cache's limits stay as they are.
#[verifier::external_body]
fn cache_insert(cache: &mut moka::sync::Cache<i64, Vec<String>>, key: i64, value: Vec<String>)
    ensures
        cache_written(*final(cache)) == cache_written(*old(cache)).insert(key, value.deep_view()),
        cache_limits(*final(cache)) == cache_limits(*old(cache)),
{
    cache.insert(key, value);
}

/// `moka::sync::Cache::run_pending_tasks`: the cache catches up with its own
/// bookkeeping, which is when it drops what is over its capacity. Nothing is
/// written by it, and nothing is claimed of what it drops.
#[verifier::external_body]
fn cache_run_pending_tasks(cache: &moka::sync::Cache<i64, Vec<String>>) {
    cache.run_pending_tasks();
}

/// `moka::sync::Cache::get`: a copy of the value last written for `key`, or
/// nothing. Which of the two depends on the cache's clock and on what it has
/// dropped, so no more is claimed.
#[verifier::external_body]
fn cache_get(cache: &moka::sync::Cache<i64, Vec<String>>, key: i64) -> (found: Option<
    Vec<String>,
>)
    ensures
        readable(cache_written(*cache), key, found.deep_view()),
{
    cache.get(&key)
}

/// `moka::sync::Cache::invalidate`: nothing is written for `key` any more;
/// the other entries and the cache's limits stay as they are.
#[verifier::external_body]
fn cache_invalidate(cache: &mut moka::sync::Cache<i64, Vec<String>>, key: i64)
    ensures
        cache_written(*final(cache)) == cache_written(*old(cache)).remove(key),
        cache_limits(*final(cache)) == cache_limits(*old(cache)),
{
    cache.invalidate(&key);
}

/// A bounded store from a user to a list of texts, whose entries expire.
///
/// Its view is what was written to it and not removed since. An entry can be
/// read for as long as its time to live has not passed since it was written
/// and the cache has not dropped it to stay within its capacity.
pub struct ExpirableCache {
    cache: moka::sync::Cache<i64, Vec<String>>,
}

impl View for ExpirableCache {
    type V = Map<i64, Seq<Seq<char>>>;

    closed spec fn view(&self) -> Map<i64, Seq<Seq<char>>> {
        cache_written(self.cache)
    }
}

impl ExpirableCache {
    /// The number of entries the cache holds at most.
    pub closed spec fn max_capacity(&self) -> u64 {
        cache_limits(self.cache).0
    }

    /// The milliseconds an entry can be read for after it was written.
    pub closed spec fn ttl_millis(&self) -> u64 {
        cache_limits(self.cache).1
    }

    /// An empty cache of at most `max_capacity` entries, each of which can be
    /// read for `ttl_millis` milliseconds after it was written.
    pub fn new(max_capacity: u64, ttl_millis: u64) -> (cache: Self)
        requires
            ttl_millis <= MAX_TTL_MILLIS,
        ensures
            cache@ == no_entries(),
            cache.max_capacity() == max_capacity,
            cache.ttl_millis() == ttl_millis,
    {
        ExpirableCache { cache: cache_build(max_capacity, ttl_millis) }
    }

    /// Writes `value` for `key`, in place of what was written for it before,
    /// and lets the cache drop what is over its capacity. The time to live of
    /// the entry starts anew.
    pub fn insert(&mut self, key: i64, value: Vec<String>)
        ensures
            final(self)@ == old(self)@.insert(key, value.deep_view()),
            final(self).max_capacity() == old(self).max_capacity(),
            final(self).ttl_millis() == old(self).ttl_millis(),
    {
        cache_insert(&mut self.cache, key, value);
        cache_run_pending_tasks(&self.cache);
    }

    /// Reads the value of `key`: the value last written for it, or nothing
    /// where none was written, where it was removed, where its time to live
    /// has passed, or where the cache has dropped it.
    pub fn get(&self, key: &i64) -> (found: Option<Vec<String>>)
        ensures
            readable(self@, *key, found.deep_view()),
    {
        cache_get(&self.cache, *key)
    }

    /// Removes what was written for `key`, if anything.
    pub fn remove(&mut self, key: &i64)
        ensures
            final(self)@ == old(self)@.remove(*key),
            final(self).max_capacity() == old(self).max_capacity(),
            final(self).ttl_millis() == old(self).ttl_millis(),
    {
        cache_invalidate(&mut self.cache, *key);
    }
}

/// A read that follows a write to the same key gives what was written, or
/// nothing: never an older value, and never the value of another key.
pub proof fn law_read_after_write(
    entries: Map<i64, Seq<Seq<char>>>,
    key: i64,
    value: Seq<Seq<char>>,
    found: Option<Seq<Seq<char>>>,
)
    requires
        readable(entries.insert(key, value), key, found),
    ensures
        found is None || found == Some(value),
{
}

/// A write to one key leaves what a read of another key may give as it was.
pub proof fn law_write_leaves_other_keys(
    entries: Map<i64, Seq<Seq<char>>>,
    key: i64,
    value: Seq<Seq<char>>,
    other: i64,
    found: Option<Seq<Seq<char>>>,
)
    requires
        other != key,
    ensures
        readable(entries.insert(key, value), other, found) <==> readable(entries, other, found),
{
}

/// A read that follows the removal of its key gives nothing.
pub proof fn law_read_after_remove(
    entries: Map<i64, Seq<Seq<char>>>,
    key: i64,
    found: Option<Seq<Seq<char>>>,
)
    requires
        readable(entries.remove(key), key, found),
    ensures
        found is None,
{
}

/// To remove a key twice is to remove it once, and to remove a key that was
/// never written changes nothing.
pub proof fn law_remove_is_idempotent(entries: Map<i64, Seq<Seq<char>>>, key: i64)
    ensures
        entries.remove(key).remove(key) == entries.remove(key),
        !entries.contains_key(key) ==> entries.remove(key) == entries,
{
}

/// A read of a cache to which nothing was written gives nothing.
pub proof fn law_empty_cache_reads_nothing(key: i64, found: Option<Seq<Seq<char>>>)
    requires
        readable(no_entries(), key, found),
    ensures
        found is None,
{
}

} // verus!
