//! The name resolution cache: for each interface that a forwarded message
//! names, the unique address that last answered for the service.

use crate::store::{
    build_owner_store, find_owner, known_owners, owner_idle_secs, read_owner_idle_secs, store_owner,
};
use vstd::prelude::*;

verus! {

/// The idle window of a name cache, in seconds. It is short, because the owner
/// of a service changes when the service restarts.
pub const NAME_IDLE_SECS: u64 = 5;

/// The owners that one connection's directory gave, keyed by the interface of
/// the message for which it was asked.
///
/// Its view is the map of the owners that were remembered. An entry that stays
/// untouched for the idle window may be dropped, so `lookup` may come back
/// empty for an interface of the view; it never invents an owner.
pub struct NameCache {
    store: moka::sync::Cache<String, String>,
}

impl View for NameCache {
    type V = Map<Seq<char>, Seq<char>>;

    closed spec fn view(&self) -> Map<Seq<char>, Seq<char>> {
        known_owners(self.store)
    }
}

impl NameCache {
    /// The idle window that the cache was built with, in seconds.
    pub closed spec fn idle_secs(&self) -> Option<u64> {
        owner_idle_secs(self.store)
    }

    /// An empty cache with the idle window of five seconds.
    pub fn new() -> (cache: Self)
        ensures
            cache@ == Map::<Seq<char>, Seq<char>>::empty(),
            cache.idle_secs() == Some(NAME_IDLE_SECS),
    {
        let cache = NameCache { store: build_owner_store(NAME_IDLE_SECS) };
        assert(cache@ =~= Map::<Seq<char>, Seq<char>>::empty());
        cache
    }

    /// The idle window, in seconds.
    pub fn idle_window(&self) -> (secs: Option<u64>)
        ensures
            secs == self.idle_secs(),
    {
        read_owner_idle_secs(&self.store)
    }

    /// The owner remembered for `interface`. Comes back empty if there is
    /// none, or if the cache has dropped it for idleness.
    pub fn lookup(&self, interface: &String) -> (found: Option<String>)
        ensures
            found matches Some(owner) ==> self@.contains_key(interface@) && self@[interface@]
                == owner@,
            !self@.contains_key(interface@) ==> found is None,
    {
        find_owner(&self.store, interface)
    }

    /// Remembers `owner` for `interface`, in place of any owner that was there.
    pub fn remember(&mut self, interface: String, owner: String)
        ensures
            final(self)@ == old(self)@.insert(interface@, owner@),
            final(self).idle_secs() == old(self).idle_secs(),
    {
        store_owner(&mut self.store, interface, owner);
    }
}

} // verus!
