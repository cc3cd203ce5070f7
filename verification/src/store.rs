//! The caches of `moka` as the gateway uses them: entries that expire when
//! nobody has touched them for the idle window of their cache.
//!
//! Nothing in this file is proved. Each function says in its contract what
//! the function of `moka` that it calls does, and the rest of the library is
//! proved from these contracts.

use vstd::prelude::*;

verus! {

/// The longest idle window that `moka` accepts: a thousand years, in seconds.
pub const MAX_IDLE_SECS: u64 = 31_536_000_000;

/// `moka::sync::Cache`. Verus sees nothing inside it.
#[verifier::external_type_specification]
#[verifier::external_body]
#[verifier::reject_recursive_types(K)]
#[verifier::reject_recursive_types(V)]
#[verifier::reject_recursive_types(S)]
pub struct ExCache<K, V, S>(moka::sync::Cache<K, V, S>);

/// The pairs that were put into the cache and not removed since, by serial.
/// The cache may have dropped any of them for idleness: it never hands out a
/// pair that this map lacks, but it may fail to hand out one that the map has.
pub uninterp spec fn pending_records(store: moka::sync::Cache<u32, (Option<String>, u32)>) -> Map<u32, (Option<Seq<char>>, u32)>;

/// The idle window that the cache was built with, in whole seconds.
pub uninterp spec fn record_idle_secs(store: moka::sync::Cache<u32, (Option<String>, u32)>) -> Option<u64>;

/// The owners that were put into the cache, by interface. The cache may have
/// dropped any of them for idleness: it never hands out an owner that this map
/// lacks, but it may fail to hand out one that the map has.
pub uninterp spec fn known_owners(store: moka::sync::Cache<String, String>) -> Map<Seq<char>, Seq<char>>;

/// The idle window that the cache was built with, in whole seconds.
pub uninterp spec fn owner_idle_secs(store: moka::sync::Cache<String, String>) -> Option<u64>;

/// `moka::sync::Cache::builder`, `CacheBuilder::time_to_idle` and
/// `CacheBuilder::build`: a cache without entries and without a bound on their
/// number, which drops an entry that nobody has touched for `idle_secs`
/// seconds. `build` panics on a window of more than a thousand years.
#[verifier::external_body]
pub(crate) fn build_record_store(idle_secs: u64) -> (store: moka::sync::Cache<
    u32,
    (Option<String>, u32),
>)
    requires
        idle_secs <= MAX_IDLE_SECS,
    ensures
        pending_records(store).dom() == Set::<u32>::empty(),
        record_idle_secs(store) == Some(idle_secs),
{
    moka::sync::Cache::builder().time_to_idle(std::time::Duration::from_secs(idle_secs)).build()
}

/// `moka::sync::Cache::policy` and `Policy::time_to_idle`: the idle window
/// that the cache was built with.
#[verifier::external_body]
pub(crate) fn read_record_idle_secs(
    store: &moka::sync::Cache<u32, (Option<String>, u32)>,
) -> (secs: Option<u64>)
    ensures
        secs == record_idle_secs(*store),
{
    store.policy().time_to_idle().map(|window| window.as_secs())
}

/// `moka::sync::Cache::insert`: the pair is stored under the serial, in place
/// of any pair that was there, and the entry's idle time starts anew.
#[verifier::external_body]
pub(crate) fn store_record(
    store: &mut moka::sync::Cache<u32, (Option<String>, u32)>,
    serial: u32,
    destination: Option<String>,
    origin_serial: u32,
)
    ensures
        pending_records(*final(store)) == pending_records(*old(store)).insert(
            serial,
            (destination.deep_view(), origin_serial),
        ),
        record_idle_secs(*final(store)) == record_idle_secs(*old(store)),
{
    store.insert(serial, (destination, origin_serial));
}

/// `moka::sync::Cache::remove`: nothing is stored under the serial afterwards.
/// The pair that was stored there comes back, unless the cache had dropped it.
#[verifier::external_body]
pub(crate) fn remove_record(
    store: &mut moka::sync::Cache<u32, (Option<String>, u32)>,
    serial: u32,
) -> (taken: Option<(Option<String>, u32)>)
    ensures
        pending_records(*final(store)) == pending_records(*old(store)).remove(serial),
        record_idle_secs(*final(store)) == record_idle_secs(*old(store)),
        taken matches Some(pair) ==> pending_records(*old(store)).contains_key(serial)
            && pending_records(*old(store))[serial] == pair.deep_view(),
{
    store.remove(&serial)
}

/// `moka::sync::Cache::builder`, `CacheBuilder::time_to_idle` and
/// `CacheBuilder::build`, for a cache of owners: as `build_record_store`.
#[verifier::external_body]
pub(crate) fn build_owner_store(idle_secs: u64) -> (store: moka::sync::Cache<String, String>)
    requires
        idle_secs <= MAX_IDLE_SECS,
    ensures
        known_owners(store).dom() == Set::<Seq<char>>::empty(),
        owner_idle_secs(store) == Some(idle_secs),
{
    moka::sync::Cache::builder().time_to_idle(std::time::Duration::from_secs(idle_secs)).build()
}

/// `moka::sync::Cache::policy` and `Policy::time_to_idle`: the idle window
/// that the cache was built with.
#[verifier::external_body]
pub(crate) fn read_owner_idle_secs(store: &moka::sync::Cache<String, String>) -> (secs: Option<
    u64,
>)
    ensures
        secs == owner_idle_secs(*store),
{
    store.policy().time_to_idle().map(|window| window.as_secs())
}

/// `moka::sync::Cache::get`: the owner that is stored under the interface,
/// unless there is none or the cache has dropped it. A hit starts the entry's
/// idle time anew.
#[verifier::external_body]
pub(crate) fn find_owner(store: &moka::sync::Cache<String, String>, interface: &String) -> (found:
    Option<String>)
    ensures
        found matches Some(owner) ==> known_owners(*store).contains_key(interface@)
            && known_owners(*store)[interface@] == owner@,
{
    store.get(interface)
}

/// `moka::sync::Cache::insert`: the owner is stored under the interface, in
/// place of any owner that was there, and the entry's idle time starts anew.
#[verifier::external_body]
pub(crate) fn store_owner(
    store: &mut moka::sync::Cache<String, String>,
    interface: String,
    owner: String,
)
    ensures
        known_owners(*final(store)) == known_owners(*old(store)).insert(interface@, owner@),
        owner_idle_secs(*final(store)) == owner_idle_secs(*old(store)),
{
    store.insert(interface, owner);
}

} // verus!
