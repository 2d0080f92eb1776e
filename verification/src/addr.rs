//! Protocol-layer (IPv4) and link-layer (Ethernet) address types, with the
//! unicast / broadcast / multicast classification the cache relies on.

use vstd::prelude::*;

verus! {

/// A protocol-layer address: an IPv4 address held as its four octets.
#[derive(Debug, Clone, Copy, PartialEq, Eq)]
pub struct ProtocolAddr {
    pub o0: u8,
    pub o1: u8,
    pub o2: u8,
    pub o3: u8,
}

impl ProtocolAddr {
    /// Build an address from its four dotted-decimal octets.
    pub fn new(o0: u8, o1: u8, o2: u8, o3: u8) -> (r: ProtocolAddr)
        ensures
            r == (ProtocolAddr { o0, o1, o2, o3 }),
    {
        ProtocolAddr { o0, o1, o2, o3 }
    }

    /// Whether this is the all-ones link-local broadcast address,
    /// 255.255.255.255.
    pub open spec fn spec_is_broadcast(self) -> bool {
        self.o0 == 0xffu8 && self.o1 == 0xffu8 && self.o2 == 0xffu8 && self.o3 == 0xffu8
    }

    #[verifier::when_used_as_spec(spec_is_broadcast)]
    pub fn is_broadcast(self) -> (r: bool)
        ensures
            r == self.spec_is_broadcast(),
    {
        self.o0 == 0xff && self.o1 == 0xff && self.o2 == 0xff && self.o3 == 0xff
    }

    /// Whether this address lies in the multicast block 224.0.0.0/4.
    pub open spec fn spec_is_multicast(self) -> bool {
        self.o0 & 0xf0u8 == 0xe0u8
    }

    #[verifier::when_used_as_spec(spec_is_multicast)]
    pub fn is_multicast(self) -> (r: bool)
        ensures
            r == self.spec_is_multicast(),
    {
        self.o0 & 0xf0 == 0xe0
    }

    /// Whether this is the unspecified address 0.0.0.0.
    pub open spec fn spec_is_unspecified(self) -> bool {
        self.o0 == 0u8 && self.o1 == 0u8 && self.o2 == 0u8 && self.o3 == 0u8
    }

    #[verifier::when_used_as_spec(spec_is_unspecified)]
    pub fn is_unspecified(self) -> (r: bool)
        ensures
            r == self.spec_is_unspecified(),
    {
        self.o0 == 0 && self.o1 == 0 && self.o2 == 0 && self.o3 == 0
    }

    /// A unicast address is one that is neither broadcast, nor multicast,
    /// nor unspecified.
    pub open spec fn spec_is_unicast(self) -> bool {
        !self.spec_is_broadcast() && !self.spec_is_multicast() && !self.spec_is_unspecified()
    }

    #[verifier::when_used_as_spec(spec_is_unicast)]
    pub fn is_unicast(self) -> (r: bool)
        ensures
            r == self.spec_is_unicast(),
    {
        !self.is_broadcast() && !self.is_multicast() && !self.is_unspecified()
    }
}

/// A link-layer address: an Ethernet (MAC) address held as its six octets.
#[derive(Debug, Clone, Copy, PartialEq, Eq)]
pub struct HardwareAddr {
    pub h0: u8,
    pub h1: u8,
    pub h2: u8,
    pub h3: u8,
    pub h4: u8,
    pub h5: u8,
}

impl HardwareAddr {
    /// Build an address from its six octets.
    pub fn new(h0: u8, h1: u8, h2: u8, h3: u8, h4: u8, h5: u8) -> (r: HardwareAddr)
        ensures
            r == (HardwareAddr { h0, h1, h2, h3, h4, h5 }),
    {
        HardwareAddr { h0, h1, h2, h3, h4, h5 }
    }

    /// The all-ones broadcast address, ff:ff:ff:ff:ff:ff.
    pub open spec fn spec_broadcast() -> HardwareAddr {
        HardwareAddr { h0: 0xffu8, h1: 0xffu8, h2: 0xffu8, h3: 0xffu8, h4: 0xffu8, h5: 0xffu8 }
    }

    #[verifier::when_used_as_spec(spec_broadcast)]
    pub fn broadcast() -> (r: HardwareAddr)
        ensures
            r == HardwareAddr::spec_broadcast(),
    {
        HardwareAddr { h0: 0xff, h1: 0xff, h2: 0xff, h3: 0xff, h4: 0xff, h5: 0xff }
    }

    /// Whether this is the broadcast address.
    pub open spec fn spec_is_broadcast(self) -> bool {
        self == HardwareAddr::spec_broadcast()
    }

    #[verifier::when_used_as_spec(spec_is_broadcast)]
    pub fn is_broadcast(self) -> (r: bool)
        ensures
            r == self.spec_is_broadcast(),
    {
        self.h0 == 0xff && self.h1 == 0xff && self.h2 == 0xff && self.h3 == 0xff && self.h4
            == 0xff && self.h5 == 0xff
    }

    /// Whether the group bit (the least significant bit of the first octet)
    /// is set, marking a multicast address.
    pub open spec fn spec_is_multicast(self) -> bool {
        self.h0 & 1u8 != 0u8
    }

    #[verifier::when_used_as_spec(spec_is_multicast)]
    pub fn is_multicast(self) -> (r: bool)
        ensures
            r == self.spec_is_multicast(),
    {
        self.h0 & 1 != 0
    }

    /// A unicast address is one that is neither broadcast nor multicast.
    pub open spec fn spec_is_unicast(self) -> bool {
        !self.spec_is_broadcast() && !self.spec_is_multicast()
    }

    #[verifier::when_used_as_spec(spec_is_unicast)]
    pub fn is_unicast(self) -> (r: bool)
        ensures
            r == self.spec_is_unicast(),
    {
        !self.is_broadcast() && !self.is_multicast()
    }
}

} // verus!
