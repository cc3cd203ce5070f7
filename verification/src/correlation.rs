//! The correlation cache: for each serial that the gateway has put on a
//! forwarded message, where a reply to it must go.

use crate::store::{
    build_record_store, pending_records, read_record_idle_secs, record_idle_secs, remove_record,
    store_record,
};
use vstd::prelude::*;

verus! {

/// Where a reply must go: the address of the connection that sent the
/// forwarded message, if it gave one, and the serial that the message carried
/// when it reached the gateway.
#[derive(Clone, Debug, PartialEq, Eq)]
pub struct CorrelationRecord {
    pub destination: Option<String>,
    pub serial: u32,
}

/// A correlation record as a mathematical value.
pub struct CorrelationView {
    pub destination: Option<Seq<char>>,
    pub serial: u32,
}

impl View for CorrelationRecord {
    type V = CorrelationView;

    open spec fn view(&self) -> CorrelationView {
        CorrelationView { destination: self.destination.deep_view(), serial: self.serial }
    }
}

impl CorrelationView {
    /// A record can be answered on the bus only if its serial is not zero.
    pub open spec fn well_formed(self) -> bool {
        self.serial != 0
    }
}

/// The record that a stored pair stands for.
pub open spec fn record_of(pair: (Option<Seq<char>>, u32)) -> CorrelationView {
    CorrelationView { destination: pair.0, serial: pair.1 }
}

/// The idle window of a correlation cache, in seconds: ten minutes.
pub const RECORD_IDLE_SECS: u64 = 600;

/// The correlation records of one direction of travel, keyed by the serial
/// that the gateway generated for the forwarded message.
///
/// Its view is the map of the records that were inserted and not taken since.
/// A record that stays untouched for the idle window may be dropped, so `take`
/// may come back empty for a serial of the view; it never invents a record.
pub struct CorrelationCache {
    store: moka::sync::Cache<u32, (Option<String>, u32)>,
}

impl View for CorrelationCache {
    type V = Map<u32, CorrelationView>;

    closed spec fn view(&self) -> Map<u32, CorrelationView> {
        Map::new(
            |serial: u32| pending_records(self.store).contains_key(serial),
            |serial: u32| record_of(pending_records(self.store)[serial]),
        )
    }
}

impl CorrelationCache {
    /// The idle window that the cache was built with, in seconds.
    pub closed spec fn idle_secs(&self) -> Option<u64> {
        record_idle_secs(self.store)
    }

    /// An empty cache with the idle window of ten minutes.
    pub fn new() -> (cache: Self)
        ensures
            cache@ == Map::<u32, CorrelationView>::empty(),
            cache.idle_secs() == Some(RECORD_IDLE_SECS),
    {
        let cache = CorrelationCache { store: build_record_store(RECORD_IDLE_SECS) };
        assert(cache@ =~= Map::<u32, CorrelationView>::empty());
        cache
    }

    /// The idle window, in seconds.
    pub fn idle_window(&self) -> (secs: Option<u64>)
        ensures
            secs == self.idle_secs(),
    {
        read_record_idle_secs(&self.store)
    }

    /// Stores `record` under `serial`, in place of any record that was there.
    pub fn insert(&mut self, serial: u32, record: CorrelationRecord)
        ensures
            final(self)@ == old(self)@.insert(serial, record@),
            final(self).idle_secs() == old(self).idle_secs(),
    {
        let ghost stored = record@;
        store_record(&mut self.store, serial, record.destination, record.serial);
        assert(self@ =~= old(self)@.insert(serial, stored));
    }

    /// Removes the record under `serial` and returns it. Comes back empty if
    /// there is none, or if the cache has dropped it for idleness.
    pub fn take(&mut self, serial: u32) -> (taken: Option<CorrelationRecord>)
        ensures
            final(self)@ == old(self)@.remove(serial),
            final(self).idle_secs() == old(self).idle_secs(),
            taken matches Some(record) ==> old(self)@.contains_key(serial) && old(self)@[serial]
                == record@,
            !old(self)@.contains_key(serial) ==> taken is None,
    {
        let taken = remove_record(&mut self.store, serial);
        assert(self@ =~= old(self)@.remove(serial));
        match taken {
            Some(pair) => Some(CorrelationRecord { destination: pair.0, serial: pair.1 }),
            None => None,
        }
    }
}

} // verus!
