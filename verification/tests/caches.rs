use dbusgraft::correlation::{CorrelationCache, CorrelationRecord, RECORD_IDLE_SECS};
use dbusgraft::names::{NameCache, NAME_IDLE_SECS};
use std::sync::mpsc::{channel, RecvTimeoutError};
use std::time::Duration;

fn record(destination: Option<&str>, serial: u32) -> CorrelationRecord {
    CorrelationRecord { destination: destination.map(|value| value.to_string()), serial }
}

fn wait(window: Duration) {
    let (_keep, never) = channel::<()>();
    assert_eq!(never.recv_timeout(window), Err(RecvTimeoutError::Timeout));
}

#[test]
fn correlation_cache_idles_for_ten_minutes() {
    assert_eq!(RECORD_IDLE_SECS, 600);
    assert_eq!(CorrelationCache::new().idle_window(), Some(600));
}

#[test]
fn name_cache_idles_for_five_seconds() {
    assert_eq!(NAME_IDLE_SECS, 5);
    assert_eq!(NameCache::new().idle_window(), Some(5));
}

#[test]
fn taken_record_is_the_inserted_one() {
    let mut cache = CorrelationCache::new();
    cache.insert(101, record(Some(":1.10"), 7));
    cache.insert(102, record(None, 8));
    assert_eq!(cache.take(101), Some(record(Some(":1.10"), 7)));
    assert_eq!(cache.take(102), Some(record(None, 8)));
}

#[test]
fn record_is_taken_once() {
    let mut cache = CorrelationCache::new();
    cache.insert(101, record(Some(":1.10"), 7));
    assert_eq!(cache.take(101), Some(record(Some(":1.10"), 7)));
    assert_eq!(cache.take(101), None);
}

#[test]
fn take_of_unknown_serial_is_empty() {
    let mut cache = CorrelationCache::new();
    assert_eq!(cache.take(5), None);
    cache.insert(6, record(Some(":1.1"), 1));
    assert_eq!(cache.take(5), None);
    assert_eq!(cache.take(6), Some(record(Some(":1.1"), 1)));
}

#[test]
fn insert_overwrites_the_record_of_a_serial() {
    let mut cache = CorrelationCache::new();
    cache.insert(101, record(Some(":1.10"), 7));
    cache.insert(101, record(Some(":1.11"), 9));
    assert_eq!(cache.take(101), Some(record(Some(":1.11"), 9)));
    assert_eq!(cache.take(101), None);
}

#[test]
fn remembered_owner_is_found() {
    let mut cache = NameCache::new();
    let interface = "com.example.Svc".to_string();
    assert_eq!(cache.lookup(&interface), None);
    cache.remember(interface.clone(), ":1.20".to_string());
    assert_eq!(cache.lookup(&interface), Some(":1.20".to_string()));
    assert_eq!(cache.lookup(&"com.example.Other".to_string()), None);
}

#[test]
fn remember_replaces_the_owner() {
    let mut cache = NameCache::new();
    let interface = "com.example.Svc".to_string();
    cache.remember(interface.clone(), ":1.20".to_string());
    cache.remember(interface.clone(), ":1.21".to_string());
    assert_eq!(cache.lookup(&interface), Some(":1.21".to_string()));
}

#[test]
fn owner_is_forgotten_after_the_idle_window() {
    let mut cache = NameCache::new();
    let interface = "com.example.Svc".to_string();
    cache.remember(interface.clone(), ":1.20".to_string());
    wait(Duration::from_millis(1_000));
    assert_eq!(cache.lookup(&interface), Some(":1.20".to_string()));
    wait(Duration::from_millis(5_500));
    assert_eq!(cache.lookup(&interface), None);
}
