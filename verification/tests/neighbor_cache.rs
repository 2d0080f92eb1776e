use std::collections::BTreeMap;

use managed::ManagedMap;

use neighbor_cache::neighbor::{ENTRY_LIFETIME, SILENT_TIME};
use neighbor_cache::{Answer, Cache, Error, HardwareAddr, Neighbor, ProtocolAddr};

fn haddr_a() -> HardwareAddr {
    HardwareAddr::new(0, 0, 0, 0, 0, 1)
}

fn haddr_b() -> HardwareAddr {
    HardwareAddr::new(0, 0, 0, 0, 0, 2)
}

fn haddr_c() -> HardwareAddr {
    HardwareAddr::new(0, 0, 0, 0, 0, 3)
}

fn haddr_d() -> HardwareAddr {
    HardwareAddr::new(0, 0, 0, 0, 0, 4)
}

fn paddr_a() -> ProtocolAddr {
    ProtocolAddr::new(1, 0, 0, 1)
}

fn paddr_b() -> ProtocolAddr {
    ProtocolAddr::new(1, 0, 0, 2)
}

fn paddr_c() -> ProtocolAddr {
    ProtocolAddr::new(1, 0, 0, 3)
}

fn paddr_d() -> ProtocolAddr {
    ProtocolAddr::new(1, 0, 0, 4)
}

#[test]
fn test_fill() {
    let mut cache_storage: [Option<(u32, Neighbor)>; 3] = [None; 3];
    let mut cache = Cache::new(ManagedMap::Borrowed(&mut cache_storage[..])).unwrap();

    assert_eq!(cache.lookup_pure(&paddr_a(), 0), None);
    assert_eq!(cache.lookup_pure(&paddr_b(), 0), None);

    cache.fill(paddr_a(), haddr_a(), 0).unwrap();
    assert_eq!(cache.lookup_pure(&paddr_a(), 0), Some(haddr_a()));
    assert_eq!(cache.lookup_pure(&paddr_b(), 0), None);
    assert_eq!(cache.lookup_pure(&paddr_a(), 2 * ENTRY_LIFETIME), None);

    cache.fill(paddr_a(), haddr_a(), 0).unwrap();
    assert_eq!(cache.lookup_pure(&paddr_b(), 0), None);
}

#[test]
fn test_expire() {
    let mut cache_storage: [Option<(u32, Neighbor)>; 3] = [None; 3];
    let mut cache = Cache::new(ManagedMap::Borrowed(&mut cache_storage[..])).unwrap();

    cache.fill(paddr_a(), haddr_a(), 0).unwrap();
    assert_eq!(cache.lookup_pure(&paddr_a(), 0), Some(haddr_a()));
    assert_eq!(cache.lookup_pure(&paddr_a(), 2 * ENTRY_LIFETIME), None);
}

#[test]
fn test_replace() {
    let mut cache_storage: [Option<(u32, Neighbor)>; 3] = [None; 3];
    let mut cache = Cache::new(ManagedMap::Borrowed(&mut cache_storage[..])).unwrap();

    cache.fill(paddr_a(), haddr_a(), 0).unwrap();
    assert_eq!(cache.lookup_pure(&paddr_a(), 0), Some(haddr_a()));
    cache.fill(paddr_a(), haddr_b(), 0).unwrap();
    assert_eq!(cache.lookup_pure(&paddr_a(), 0), Some(haddr_b()));
}

#[test]
fn test_evict() {
    let mut cache_storage: [Option<(u32, Neighbor)>; 3] = [None; 3];
    let mut cache = Cache::new(ManagedMap::Borrowed(&mut cache_storage[..])).unwrap();

    cache.fill(paddr_a(), haddr_a(), 100).unwrap();
    cache.fill(paddr_b(), haddr_b(), 50).unwrap();
    cache.fill(paddr_c(), haddr_c(), 200).unwrap();
    assert_eq!(cache.lookup_pure(&paddr_b(), 1000), Some(haddr_b()));
    assert_eq!(cache.lookup_pure(&paddr_d(), 1000), None);

    cache.fill(paddr_d(), haddr_d(), 300).unwrap();
    assert_eq!(cache.lookup_pure(&paddr_b(), 1000), None);
    assert_eq!(cache.lookup_pure(&paddr_d(), 1000), Some(haddr_d()));
}

#[test]
fn test_hush() {
    let mut cache_storage: [Option<(u32, Neighbor)>; 3] = [None; 3];
    let mut cache = Cache::new(ManagedMap::Borrowed(&mut cache_storage[..])).unwrap();

    assert_eq!(cache.lookup(&paddr_a(), 0), Answer::NotFound);
    assert_eq!(cache.lookup(&paddr_a(), 100), Answer::Hushed);
    assert_eq!(cache.lookup(&paddr_a(), 2000), Answer::NotFound);
}

#[test]
fn test_fill_then_lookup_window() {
    let mut cache_storage: [Option<(u32, Neighbor)>; 3] = [None; 3];
    let mut cache = Cache::new(ManagedMap::Borrowed(&mut cache_storage[..])).unwrap();

    cache.fill(paddr_a(), haddr_a(), 1000).unwrap();
    assert_eq!(cache.lookup_pure(&paddr_a(), 1000), Some(haddr_a()));
    assert_eq!(cache.lookup_pure(&paddr_a(), 1000 + ENTRY_LIFETIME - 1), Some(haddr_a()));
    assert_eq!(cache.lookup_pure(&paddr_a(), 1000 + ENTRY_LIFETIME), None);
    assert_eq!(cache.lookup_pure(&paddr_a(), 1000 + ENTRY_LIFETIME + 1), None);
    // Expiry is the only time bound: a query timestamped before the fill
    // still resolves.
    assert_eq!(cache.lookup_pure(&paddr_a(), 999), Some(haddr_a()));
}

#[test]
fn test_broadcast_always_resolves() {
    let mut cache_storage: [Option<(u32, Neighbor)>; 3] = [None; 3];
    let mut cache = Cache::new(ManagedMap::Borrowed(&mut cache_storage[..])).unwrap();
    let broadcast = ProtocolAddr::new(255, 255, 255, 255);

    assert_eq!(cache.lookup_pure(&broadcast, 0), Some(HardwareAddr::broadcast()));
    cache.fill(paddr_a(), haddr_a(), 0).unwrap();
    assert_eq!(cache.lookup_pure(&broadcast, 0), Some(HardwareAddr::broadcast()));
    assert_eq!(cache.lookup_pure(&broadcast, 123_456_789), Some(HardwareAddr::broadcast()));
    // A resolving lookup of the broadcast address is Found and opens no window.
    assert_eq!(cache.lookup(&broadcast, 0), Answer::Found(HardwareAddr::broadcast()));
    assert_eq!(cache.lookup(&paddr_b(), 0), Answer::NotFound);
}

#[test]
fn test_hush_is_global() {
    let mut cache_storage: [Option<(u32, Neighbor)>; 3] = [None; 3];
    let mut cache = Cache::new(ManagedMap::Borrowed(&mut cache_storage[..])).unwrap();

    // A failed lookup of one address hushes a different one inside the window.
    assert_eq!(cache.lookup(&paddr_a(), 0), Answer::NotFound);
    assert_eq!(cache.lookup(&paddr_b(), SILENT_TIME - 1), Answer::Hushed);
    assert_eq!(cache.lookup(&paddr_b(), SILENT_TIME), Answer::NotFound);
    // A Found answer neither consults nor moves the window.
    cache.fill(paddr_c(), haddr_c(), SILENT_TIME).unwrap();
    assert_eq!(cache.lookup(&paddr_c(), SILENT_TIME + 1), Answer::Found(haddr_c()));
    assert_eq!(cache.lookup(&paddr_a(), SILENT_TIME + 2), Answer::Hushed);
}

#[test]
fn test_refill_idempotent() {
    let mut cache_storage: [Option<(u32, Neighbor)>; 3] = [None; 3];
    let mut cache = Cache::new(ManagedMap::Borrowed(&mut cache_storage[..])).unwrap();

    cache.fill(paddr_a(), haddr_a(), 100).unwrap();
    cache.fill(paddr_a(), haddr_a(), 100).unwrap();
    cache.fill(paddr_b(), haddr_b(), 100).unwrap();
    cache.fill(paddr_c(), haddr_c(), 100).unwrap();
    // Were the re-fill to take a second slot, one of the three entries
    // would have been evicted from the three-slot storage.
    assert_eq!(cache.lookup_pure(&paddr_a(), 200), Some(haddr_a()));
    assert_eq!(cache.lookup_pure(&paddr_b(), 200), Some(haddr_b()));
    assert_eq!(cache.lookup_pure(&paddr_c(), 200), Some(haddr_c()));
}

#[test]
fn test_zero_capacity_rejected() {
    let mut cache_storage: [Option<(u32, Neighbor)>; 0] = [];
    match Cache::new(ManagedMap::Borrowed(&mut cache_storage[..])) {
        Err(Error::ZeroCapacity) => {},
        _ => panic!("zero-capacity storage must be rejected"),
    }
}

#[test]
fn test_non_unicast_rejected() {
    let mut cache_storage: [Option<(u32, Neighbor)>; 3] = [None; 3];
    let mut cache = Cache::new(ManagedMap::Borrowed(&mut cache_storage[..])).unwrap();

    // Broadcast protocol address as a key.
    assert_eq!(
        cache.fill(ProtocolAddr::new(255, 255, 255, 255), haddr_a(), 0),
        Err(Error::InvalidAddress)
    );
    // Multicast protocol address as a key.
    assert_eq!(
        cache.fill(ProtocolAddr::new(224, 0, 0, 1), haddr_a(), 0),
        Err(Error::InvalidAddress)
    );
    // Unspecified protocol address as a key.
    assert_eq!(
        cache.fill(ProtocolAddr::new(0, 0, 0, 0), haddr_a(), 0),
        Err(Error::InvalidAddress)
    );
    // Broadcast and multicast hardware addresses as values.
    assert_eq!(
        cache.fill(paddr_a(), HardwareAddr::broadcast(), 0),
        Err(Error::InvalidAddress)
    );
    assert_eq!(
        cache.fill(paddr_a(), HardwareAddr::new(1, 0, 0, 0, 0, 0), 0),
        Err(Error::InvalidAddress)
    );
    // A rejected fill leaves the cache untouched.
    assert_eq!(cache.lookup_pure(&paddr_a(), 0), None);
}

#[test]
fn test_new_clears_storage() {
    let stale = Neighbor { hardware_addr: haddr_d(), expires_at: u64::MAX };
    let mut cache_storage: [Option<(u32, Neighbor)>; 3] = [Some((0x0100_0001, stale)); 3];
    let cache = Cache::new(ManagedMap::Borrowed(&mut cache_storage[..])).unwrap();
    assert_eq!(cache.lookup_pure(&paddr_a(), 0), None);
}

#[test]
fn test_capacity_one() {
    let mut cache_storage: [Option<(u32, Neighbor)>; 1] = [None];
    let mut cache = Cache::new(ManagedMap::Borrowed(&mut cache_storage[..])).unwrap();

    cache.fill(paddr_a(), haddr_a(), 0).unwrap();
    assert_eq!(cache.lookup_pure(&paddr_a(), 0), Some(haddr_a()));
    cache.fill(paddr_b(), haddr_b(), 1).unwrap();
    assert_eq!(cache.lookup_pure(&paddr_a(), 1), None);
    assert_eq!(cache.lookup_pure(&paddr_b(), 1), Some(haddr_b()));
}

#[test]
fn test_owned_storage_never_evicts() {
    let mut cache = Cache::new(ManagedMap::Owned(BTreeMap::new())).unwrap();

    cache.fill(paddr_a(), haddr_a(), 100).unwrap();
    cache.fill(paddr_b(), haddr_b(), 50).unwrap();
    cache.fill(paddr_c(), haddr_c(), 200).unwrap();
    cache.fill(paddr_d(), haddr_d(), 300).unwrap();
    assert_eq!(cache.lookup_pure(&paddr_a(), 1000), Some(haddr_a()));
    assert_eq!(cache.lookup_pure(&paddr_b(), 1000), Some(haddr_b()));
    assert_eq!(cache.lookup_pure(&paddr_c(), 1000), Some(haddr_c()));
    assert_eq!(cache.lookup_pure(&paddr_d(), 1000), Some(haddr_d()));
}

#[test]
fn test_evict_ties_and_reuse() {
    let mut cache_storage: [Option<(u32, Neighbor)>; 2] = [None; 2];
    let mut cache = Cache::new(ManagedMap::Borrowed(&mut cache_storage[..])).unwrap();

    // Two entries with equal expiry: the eviction takes one of them.
    cache.fill(paddr_a(), haddr_a(), 7).unwrap();
    cache.fill(paddr_b(), haddr_b(), 7).unwrap();
    cache.fill(paddr_c(), haddr_c(), 7).unwrap();
    assert_eq!(cache.lookup_pure(&paddr_c(), 8), Some(haddr_c()));
    let a = cache.lookup_pure(&paddr_a(), 8);
    let b = cache.lookup_pure(&paddr_b(), 8);
    assert!(
        (a == Some(haddr_a()) && b == None) || (a == None && b == Some(haddr_b())),
        "exactly one of the two equal-expiry entries survives"
    );
}
