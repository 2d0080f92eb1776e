//! The neighbor cache: a bounded mapping from protocol addresses to hardware
//! addresses with lazy expiration, earliest-expiry eviction, and a global
//! discovery-request suppression ("hush") window.

use vstd::prelude::*;

use managed::ManagedMap;

use crate::addr::{HardwareAddr, ProtocolAddr};
use crate::storage::{
    contents, empty_table, map_capacity, map_cleared, map_entries, map_get, map_insert,
    map_remove, storage_capacity,
};

verus! {

/// Minimum delay between discovery requests, in milliseconds.
pub const SILENT_TIME: u64 = 1_000;

/// Neighbor entry lifetime, in milliseconds.
pub const ENTRY_LIFETIME: u64 = 60_000;

/// A cached neighbor.
///
/// A neighbor mapping translates from a protocol address to a hardware
/// address, and contains the timestamp past which the mapping should be
/// discarded.
#[derive(Debug, Clone, Copy, PartialEq, Eq)]
pub struct Neighbor {
    pub hardware_addr: HardwareAddr,
    pub expires_at: u64,
}

/// An answer to a neighbor cache lookup.
#[derive(Debug, Clone, Copy, PartialEq, Eq)]
pub enum Answer {
    /// The neighbor address is in the cache and not expired.
    Found(HardwareAddr),
    /// The neighbor address is not in the cache, or has expired.
    NotFound,
    /// The neighbor address is not in the cache, or has expired,
    /// and a lookup has been made recently.
    Hushed,
}

/// A rejected call into the cache.
#[derive(Debug, Clone, Copy, PartialEq, Eq)]
pub enum Error {
    /// Bounded storage was constructed over zero slots.
    ZeroCapacity,
    /// A non-unicast address was handed to `fill`.
    InvalidAddress,
}

/// The key a protocol address is stored under: its four octets read as one
/// big-endian integer.
pub open spec fn spec_key_of(a: ProtocolAddr) -> u32 {
    (a.o0 * 0x100_0000 + a.o1 * 0x1_0000 + a.o2 * 0x100 + a.o3) as u32
}

pub fn key_of(a: ProtocolAddr) -> (r: u32)
    ensures
        r == spec_key_of(a),
{
    (a.o0 as u32) * 0x100_0000 + (a.o1 as u32) * 0x1_0000 + (a.o2 as u32) * 0x100 + (a.o3 as u32)
}

/// The entry a fill at `timestamp` records.
pub open spec fn filled_neighbor(hardware_addr: HardwareAddr, timestamp: u64) -> Neighbor {
    Neighbor { hardware_addr, expires_at: (timestamp + ENTRY_LIFETIME) as u64 }
}

/// `e` is a stored key whose entry expires no later than any other's.
pub open spec fn is_earliest_expiring(t: Map<u32, Neighbor>, e: u32) -> bool {
    &&& t.contains_key(e)
    &&& forall|k: u32| t.contains_key(k) ==> t[e].expires_at <= #[trigger] t[k].expires_at
}

/// `post` is `pre` with some earliest-expiring entry evicted to make room
/// for the new entry `n` under key `key`.
pub open spec fn evicted_for(
    pre: Map<u32, Neighbor>,
    post: Map<u32, Neighbor>,
    key: u32,
    n: Neighbor,
) -> bool {
    exists|e: u32| #[trigger]
        is_earliest_expiring(pre, e) && post == pre.remove(e).insert(key, n)
}

/// A neighbor cache backed by a map.
pub struct Cache<'a> {
    pub storage: ManagedMap<'a, u32, Neighbor>,
    pub hushed_until: u64,
}

impl<'a> Cache<'a> {
    /// The resolution table this cache holds.
    pub open spec fn table(self) -> Map<u32, Neighbor> {
        contents(self.storage)
    }

    /// How many entries the backing storage can hold.
    pub open spec fn capacity(self) -> nat {
        storage_capacity(self.storage)
    }

    /// The cache's invariant: at least one slot, and never more entries than
    /// slots.
    pub open spec fn wf(self) -> bool {
        &&& self.capacity() >= 1
        &&& self.table().dom().finite()
        &&& self.table().dom().len() <= self.capacity()
    }

    /// Create a cache. The backing storage is cleared upon creation.
    /// Storage that cannot hold a single entry is rejected.
    pub fn new(storage: ManagedMap<'a, u32, Neighbor>) -> (r: Result<Cache<'a>, Error>)
        ensures
            match r {
                Ok(cache) => {
                    &&& storage_capacity(storage) >= 1
                    &&& cache.wf()
                    &&& cache.table() == empty_table()
                    &&& cache.hushed_until == 0
                },
                Err(e) => e == Error::ZeroCapacity && storage_capacity(storage) == 0,
            },
    {
        let storage = map_cleared(storage);
        if map_capacity(&storage) == 0 {
            return Err(Error::ZeroCapacity);
        }
        Ok(Cache { storage, hushed_until: 0 })
    }

    /// What a read-only lookup returns: the hardware broadcast address for
    /// the protocol broadcast address, the stored hardware address for a key
    /// whose entry has not expired, and nothing otherwise.
    pub open spec fn spec_lookup(self, protocol_addr: ProtocolAddr, timestamp: u64) -> Option<
        HardwareAddr,
    > {
        let key = spec_key_of(protocol_addr);
        if protocol_addr.spec_is_broadcast() {
            Some(HardwareAddr::spec_broadcast())
        } else if self.table().contains_key(key) && timestamp < self.table()[key].expires_at {
            Some(self.table()[key].hardware_addr)
        } else {
            None
        }
    }

    /// Insert or refresh the entry for a unicast protocol address, valid for
    /// `ENTRY_LIFETIME` milliseconds from `timestamp`. A present key has its
    /// value replaced; a new key takes a free slot; a new key meeting full
    /// storage evicts an earliest-expiring entry first. A non-unicast address
    /// is rejected and the cache left untouched.
    pub fn fill(
        &mut self,
        protocol_addr: ProtocolAddr,
        hardware_addr: HardwareAddr,
        timestamp: u64,
    ) -> (r: Result<(), Error>)
        requires
            old(self).wf(),
            timestamp + ENTRY_LIFETIME <= u64::MAX,
        ensures
            final(self).wf(),
            final(self).capacity() == old(self).capacity(),
            final(self).hushed_until == old(self).hushed_until,
            match r {
                Ok(()) => {
                    &&& protocol_addr.spec_is_unicast()
                    &&& hardware_addr.spec_is_unicast()
                    &&& (old(self).table().contains_key(spec_key_of(protocol_addr)) || old(
                        self,
                    ).table().dom().len() < old(self).capacity() ==> final(self).table() == old(
                        self,
                    ).table().insert(
                        spec_key_of(protocol_addr),
                        filled_neighbor(hardware_addr, timestamp),
                    ))
                    &&& (!old(self).table().contains_key(spec_key_of(protocol_addr)) && old(
                        self,
                    ).table().dom().len() >= old(self).capacity() ==> evicted_for(
                        old(self).table(),
                        final(self).table(),
                        spec_key_of(protocol_addr),
                        filled_neighbor(hardware_addr, timestamp),
                    ))
                },
                Err(e) => {
                    &&& e == Error::InvalidAddress
                    &&& !(protocol_addr.spec_is_unicast() && hardware_addr.spec_is_unicast())
                    &&& final(self).table() == old(self).table()
                },
            },
    {
        if !protocol_addr.is_unicast() || !hardware_addr.is_unicast() {
            return Err(Error::InvalidAddress);
        }
        let key = key_of(protocol_addr);
        let neighbor = Neighbor { hardware_addr, expires_at: timestamp + ENTRY_LIFETIME };
        match map_insert(&mut self.storage, key, neighbor) {
            Ok(_) => Ok(()),
            Err((key, neighbor)) => {
                // Fixed-size storage is full: evict the entry expiring earliest.
                let ghost t = contents(self.storage);
                let pairs = map_entries(&self.storage);
                let mut best: usize = 0;
                let mut i: usize = 1;
                while i < pairs.len()
                    invariant
                        1 <= i <= pairs@.len(),
                        best < i,
                        forall|j: int|
                            0 <= j < i ==> pairs@[best as int].1 <= #[trigger] pairs@[j].1,
                    decreases pairs@.len() - i,
                {
                    if pairs[i].1 < pairs[best].1 {
                        best = i;
                    }
                    i += 1;
                }
                let victim = pairs[best].0;
                proof {
                    assert forall|k: u32| t.contains_key(k) implies t[victim].expires_at
                        <= t[k].expires_at by {
                        let j = choose|j: int| 0 <= j < pairs@.len() && pairs@[j].0 == k;
                        assert(pairs@[best as int].1 <= pairs@[j].1);
                    }
                    assert(is_earliest_expiring(t, victim));
                }
                let _evicted = map_remove(&mut self.storage, victim);
                match map_insert(&mut self.storage, key, neighbor) {
                    Ok(_) => {
                        proof {
                            assert(is_earliest_expiring(t, victim) && contents(self.storage)
                                == t.remove(victim).insert(key, neighbor));
                        }
                        Ok(())
                    },
                    Err(_) => {
                        // Unreachable: the eviction just freed a slot.
                        proof {
                            assert(false);
                        }
                        Err(Error::InvalidAddress)
                    },
                }
            },
        }
    }

    /// Look the protocol address up without touching the hush state.
    pub fn lookup_pure(&self, protocol_addr: &ProtocolAddr, timestamp: u64) -> (r: Option<
        HardwareAddr,
    >)
        ensures
            r == self.spec_lookup(*protocol_addr, timestamp),
    {
        if protocol_addr.is_broadcast() {
            return Some(HardwareAddr::broadcast());
        }
        match map_get(&self.storage, key_of(*protocol_addr)) {
            Some(neighbor) => {
                if timestamp < neighbor.expires_at {
                    Some(neighbor.hardware_addr)
                } else {
                    None
                }
            },
            None => None,
        }
    }

    /// What a resolving lookup answers: a resolved address is `Found`; an
    /// unresolved one is `Hushed` while the suppression window is open and
    /// `NotFound` once it has elapsed.
    pub open spec fn spec_answer(self, protocol_addr: ProtocolAddr, timestamp: u64) -> Answer {
        match self.spec_lookup(protocol_addr, timestamp) {
            Some(h) => Answer::Found(h),
            None => if timestamp < self.hushed_until {
                Answer::Hushed
            } else {
                Answer::NotFound
            },
        }
    }

    /// Look the protocol address up on behalf of a sender. An unresolved
    /// address outside the suppression window authorizes the caller to issue
    /// one discovery request and opens a new window of `SILENT_TIME`
    /// milliseconds, global to the whole cache; inside the window the caller
    /// is hushed instead.
    pub fn lookup(&mut self, protocol_addr: &ProtocolAddr, timestamp: u64) -> (r: Answer)
        requires
            timestamp + SILENT_TIME <= u64::MAX,
        ensures
            r == old(self).spec_answer(*protocol_addr, timestamp),
            final(self).table() == old(self).table(),
            final(self).capacity() == old(self).capacity(),
            final(self).hushed_until == (if old(self).spec_lookup(*protocol_addr, timestamp)
                is None && timestamp >= old(self).hushed_until {
                (timestamp + SILENT_TIME) as u64
            } else {
                old(self).hushed_until
            }),
    {
        match self.lookup_pure(protocol_addr, timestamp) {
            Some(hardware_addr) => Answer::Found(hardware_addr),
            None => {
                if timestamp < self.hushed_until {
                    Answer::Hushed
                } else {
                    self.hushed_until = timestamp + SILENT_TIME;
                    Answer::NotFound
                }
            },
        }
    }
}

/// After a fill records `h` for the unicast address `p` at time `t0` — so
/// the table holds `filled_neighbor(h, t0)` under `p`'s key, as `fill`
/// ensures — a pure lookup of `p` returns `h` at every time from `t0` up to
/// but not including `t0 + ENTRY_LIFETIME`, and nothing from then on.
pub proof fn lemma_fill_then_lookup(c: Cache, p: ProtocolAddr, h: HardwareAddr, t0: u64, t: u64)
    requires
        p.spec_is_unicast(),
        t0 + ENTRY_LIFETIME <= u64::MAX,
        c.table().contains_key(spec_key_of(p)),
        c.table()[spec_key_of(p)] == filled_neighbor(h, t0),
    ensures
        t0 <= t < t0 + ENTRY_LIFETIME ==> c.spec_lookup(p, t) == Some(h),
        t >= t0 + ENTRY_LIFETIME ==> c.spec_lookup(p, t) is None,
{
}

/// Filling `p` again with `h2` replaces the entry a fill with `h1` left:
/// the table ends up exactly as if only the second fill had happened, the
/// key stays single (the domain gains `p`'s key once), and a lookup before
/// expiry returns `h2`.
pub proof fn lemma_refill_replaces(
    c0: Cache,
    c1: Cache,
    c2: Cache,
    p: ProtocolAddr,
    h1: HardwareAddr,
    h2: HardwareAddr,
    ts: u64,
)
    requires
        p.spec_is_unicast(),
        ts + ENTRY_LIFETIME <= u64::MAX,
        c1.table() == c0.table().insert(spec_key_of(p), filled_neighbor(h1, ts)),
        c2.table() == c1.table().insert(spec_key_of(p), filled_neighbor(h2, ts)),
    ensures
        c2.table() == c0.table().insert(spec_key_of(p), filled_neighbor(h2, ts)),
        c2.table().dom() == c0.table().dom().insert(spec_key_of(p)),
        c2.spec_lookup(p, ts) == Some(h2),
{
    assert(c2.table() =~= c0.table().insert(spec_key_of(p), filled_neighbor(h2, ts)));
    assert(c2.table().dom() =~= c0.table().dom().insert(spec_key_of(p)));
}

/// A lookup of a broadcast protocol address resolves to the hardware
/// broadcast address at every time and whatever the cache holds.
pub proof fn lemma_broadcast_lookup(c: Cache, p: ProtocolAddr, t: u64)
    requires
        p.spec_is_broadcast(),
    ensures
        c.spec_lookup(p, t) == Some(HardwareAddr::spec_broadcast()),
{
}

/// When one stored entry expires strictly earlier than every other, an
/// eviction removes exactly that entry: afterwards its key is gone (unless
/// it is the key just inserted) and the rest of the table is untouched.
pub proof fn lemma_eviction_takes_strict_minimum(
    pre: Map<u32, Neighbor>,
    post: Map<u32, Neighbor>,
    b: u32,
    key: u32,
    n: Neighbor,
)
    requires
        evicted_for(pre, post, key, n),
        pre.contains_key(b),
        forall|k: u32|
            pre.contains_key(k) && k != b ==> pre[b].expires_at < #[trigger] pre[k].expires_at,
    ensures
        post == pre.remove(b).insert(key, n),
        b != key ==> !post.contains_key(b),
{
    let e = choose|e: u32|
        #[trigger] is_earliest_expiring(pre, e) && post == pre.remove(e).insert(key, n);
    assert(pre[e].expires_at <= pre[b].expires_at);
    assert(e == b);
}

/// The hush window is global. Once a lookup of any address `a` at time `t`
/// has answered `NotFound` — it found nothing and the cache was not hushed —
/// the cache it leaves behind answers `Hushed` for every unresolved address
/// `b`, not only `a`, at every time inside the window just opened, and
/// `NotFound` again once the window has elapsed.
pub proof fn lemma_hush_is_global(
    pre: Cache,
    post: Cache,
    a: ProtocolAddr,
    b: ProtocolAddr,
    t: u64,
    t2: u64,
)
    requires
        pre.spec_lookup(a, t) is None,
        t >= pre.hushed_until,
        post.table() == pre.table(),
        post.hushed_until == t + SILENT_TIME,
        post.spec_lookup(b, t2) is None,
    ensures
        t2 < t + SILENT_TIME ==> post.spec_answer(b, t2) == Answer::Hushed,
        t2 >= t + SILENT_TIME ==> post.spec_answer(b, t2) == Answer::NotFound,
{
}

/// Filling the same address with the same hardware address twice at the
/// same timestamp changes nothing the second time: contents and size are
/// those the first fill left.
pub proof fn lemma_refill_idempotent(
    c1: Cache,
    c2: Cache,
    p: ProtocolAddr,
    h: HardwareAddr,
    ts: u64,
)
    requires
        c1.table().contains_key(spec_key_of(p)),
        c1.table()[spec_key_of(p)] == filled_neighbor(h, ts),
        c2.table() == c1.table().insert(spec_key_of(p), filled_neighbor(h, ts)),
    ensures
        c2.table() == c1.table(),
        c2.table().dom().len() == c1.table().dom().len(),
{
    assert(c2.table() =~= c1.table());
}

} // verus!

