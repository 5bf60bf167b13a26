//! IPv4 and IPv6 addresses as integers, and the multicast addresses among
//! them.

use vstd::prelude::*;

verus! {

/// What the engine asks of an address of either IP version.
pub trait IpAddress: Sized + Copy {
    /// Whether the address lies in the version's multicast range.
    spec fn spec_is_multicast(&self) -> bool;

    /// Whether the address is any but the all-zero address.
    spec fn spec_is_specified(&self) -> bool;

    /// Whether the address lies in the version's multicast range.
    fn is_multicast(&self) -> (b: bool)
        ensures
            b == self.spec_is_multicast(),
    ;

    /// Whether the address is any but the all-zero address.
    fn is_specified(&self) -> (b: bool)
        ensures
            b == self.spec_is_specified(),
    ;

    /// The address as a number: the number that its octets spell in network
    /// order.
    spec fn spec_number(&self) -> nat;

    /// Whether the two addresses are the same address.
    fn addr_eq(&self, other: &Self) -> (b: bool)
        ensures
            b == (*self == *other),
    ;

    /// Whether this address, as a number, is at most `other`.
    fn number_le(&self, other: &Self) -> (b: bool)
        ensures
            b == (self.spec_number() <= other.spec_number()),
    ;

    /// Two addresses that are the same number are the same address.
    proof fn lemma_number_is_address(a: Self, b: Self)
        ensures
            a.spec_number() == b.spec_number() ==> a == b,
    ;
}

/// An IPv4 address, held as the 32-bit number that its four octets spell in
/// network order.
#[derive(Clone, Copy, Debug, PartialEq, Eq, PartialOrd, Ord, Hash, Structural)]
pub struct Ipv4Addr {
    /// The address as a number; the first octet is the most significant.
    pub bits: u32,
}

/// The first address of 224.0.0.0/4.
pub const IPV4_MULTICAST_FIRST: u32 = 0xE000_0000;

/// The last address of 224.0.0.0/4.
pub const IPV4_MULTICAST_LAST: u32 = 0xEFFF_FFFF;

impl Ipv4Addr {
    /// The number that the four octets spell in network order.
    pub open spec fn spec_bits_of(octets: [u8; 4]) -> int {
        octets[0] * 0x100_0000 + octets[1] * 0x1_0000 + octets[2] * 0x100 + octets[3]
    }

    /// The address with the given octets, first octet first.
    pub fn new(octets: [u8; 4]) -> (a: Ipv4Addr)
        ensures
            a.bits == Self::spec_bits_of(octets),
    {
        let b0: u32 = octets[0] as u32;
        let b1: u32 = octets[1] as u32;
        let b2: u32 = octets[2] as u32;
        let b3: u32 = octets[3] as u32;
        Ipv4Addr { bits: b0 * 0x100_0000 + b1 * 0x1_0000 + b2 * 0x100 + b3 }
    }

    /// The four octets of the address, first octet first.
    pub fn octets(&self) -> (o: [u8; 4])
        ensures
            Self::spec_bits_of(o) == self.bits,
    {
        let b0: u8 = (self.bits / 0x100_0000) as u8;
        let b1: u8 = ((self.bits / 0x1_0000) % 0x100) as u8;
        let b2: u8 = ((self.bits / 0x100) % 0x100) as u8;
        let b3: u8 = (self.bits % 0x100) as u8;
        [b0, b1, b2, b3]
    }
}

impl IpAddress for Ipv4Addr {
    /// The multicast range of IPv4 is 224.0.0.0/4.
    open spec fn spec_is_multicast(&self) -> bool {
        IPV4_MULTICAST_FIRST <= self.bits <= IPV4_MULTICAST_LAST
    }

    open spec fn spec_is_specified(&self) -> bool {
        self.bits != 0
    }

    fn is_multicast(&self) -> (b: bool) {
        IPV4_MULTICAST_FIRST <= self.bits && self.bits <= IPV4_MULTICAST_LAST
    }

    fn is_specified(&self) -> (b: bool) {
        self.bits != 0
    }

    open spec fn spec_number(&self) -> nat {
        self.bits as nat
    }

    fn addr_eq(&self, other: &Self) -> (b: bool) {
        self.bits == other.bits
    }

    fn number_le(&self, other: &Self) -> (b: bool) {
        self.bits <= other.bits
    }

    proof fn lemma_number_is_address(a: Self, b: Self) {
    }
}

/// An IPv6 address, held as the 128-bit number that its sixteen octets spell
/// in network order.
#[derive(Clone, Copy, Debug, PartialEq, Eq, PartialOrd, Ord, Hash, Structural)]
pub struct Ipv6Addr {
    /// The address as a number; the first octet is the most significant.
    pub bits: u128,
}

/// The first address of ff00::/8.
pub const IPV6_MULTICAST_FIRST: u128 = 0xff00_0000_0000_0000_0000_0000_0000_0000;

/// The weight of the second octet's low half, where a multicast address
/// carries its scope.
pub const IPV6_SCOPE_UNIT: u128 = 0x1_0000_0000_0000_0000_0000_0000_0000;

/// The scope value that RFC 4291 reserves.
pub const IPV6_SCOPE_RESERVED_0: u8 = 0;

/// The scope value of interface-local multicast.
pub const IPV6_SCOPE_INTERFACE_LOCAL: u8 = 1;

impl Ipv6Addr {
    /// The number that the eight 16-bit segments spell in network order.
    pub open spec fn spec_bits_of(segments: [u16; 8]) -> int {
        segments[0] * 0x1_0000_0000_0000_0000_0000_0000_0000
            + segments[1] * 0x1_0000_0000_0000_0000_0000_0000
            + segments[2] * 0x1_0000_0000_0000_0000_0000
            + segments[3] * 0x1_0000_0000_0000_0000
            + segments[4] * 0x1_0000_0000_0000
            + segments[5] * 0x1_0000_0000
            + segments[6] * 0x1_0000
            + segments[7]
    }

    /// The address with the given 16-bit segments, first segment first.
    pub fn new(segments: [u16; 8]) -> (a: Ipv6Addr)
        ensures
            a.bits == Self::spec_bits_of(segments),
    {
        let s0: u128 = segments[0] as u128;
        let s1: u128 = segments[1] as u128;
        let s2: u128 = segments[2] as u128;
        let s3: u128 = segments[3] as u128;
        let s4: u128 = segments[4] as u128;
        let s5: u128 = segments[5] as u128;
        let s6: u128 = segments[6] as u128;
        let s7: u128 = segments[7] as u128;
        Ipv6Addr {
            bits: s0 * 0x1_0000_0000_0000_0000_0000_0000_0000
                + s1 * 0x1_0000_0000_0000_0000_0000_0000
                + s2 * 0x1_0000_0000_0000_0000_0000
                + s3 * 0x1_0000_0000_0000_0000
                + s4 * 0x1_0000_0000_0000
                + s5 * 0x1_0000_0000
                + s6 * 0x1_0000
                + s7,
        }
    }

    /// The number that the sixteen octets spell in network order.
    pub open spec fn spec_bits_of_bytes(bytes: [u8; 16]) -> int {
        Self::spec_bits_of_halves(
            bytes[0] * 0x100_0000_0000_0000 + bytes[1] * 0x1_0000_0000_0000 + bytes[2]
                * 0x100_0000_0000 + bytes[3] * 0x1_0000_0000 + bytes[4] * 0x100_0000 + bytes[5]
                * 0x1_0000 + bytes[6] * 0x100 + bytes[7],
            bytes[8] * 0x100_0000_0000_0000 + bytes[9] * 0x1_0000_0000_0000 + bytes[10]
                * 0x100_0000_0000 + bytes[11] * 0x1_0000_0000 + bytes[12] * 0x100_0000 + bytes[13]
                * 0x1_0000 + bytes[14] * 0x100 + bytes[15],
        )
    }

    /// The number whose upper 64 bits are `high` and whose lower 64 bits are
    /// `low`.
    pub open spec fn spec_bits_of_halves(high: int, low: int) -> int {
        high * 0x1_0000_0000_0000_0000 + low
    }

    /// The address with the given octets, first octet first.
    pub fn from_bytes(bytes: [u8; 16]) -> (a: Ipv6Addr)
        ensures
            a.bits == Self::spec_bits_of_bytes(bytes),
    {
        let high: u64 = (bytes[0] as u64) * 0x100_0000_0000_0000 + (bytes[1] as u64)
            * 0x1_0000_0000_0000 + (bytes[2] as u64) * 0x100_0000_0000 + (bytes[3] as u64)
            * 0x1_0000_0000 + (bytes[4] as u64) * 0x100_0000 + (bytes[5] as u64) * 0x1_0000 + (
        bytes[6] as u64) * 0x100 + (bytes[7] as u64);
        let low: u64 = (bytes[8] as u64) * 0x100_0000_0000_0000 + (bytes[9] as u64)
            * 0x1_0000_0000_0000 + (bytes[10] as u64) * 0x100_0000_0000 + (bytes[11] as u64)
            * 0x1_0000_0000 + (bytes[12] as u64) * 0x100_0000 + (bytes[13] as u64) * 0x1_0000 + (
        bytes[14] as u64) * 0x100 + (bytes[15] as u64);
        Ipv6Addr { bits: (high as u128) * 0x1_0000_0000_0000_0000 + (low as u128) }
    }

    /// The four bits in which a multicast address carries its scope: the low
    /// half of the second octet.
    pub open spec fn spec_multicast_scope_id(&self) -> int {
        ((self.bits as int) / (IPV6_SCOPE_UNIT as int)) % 16
    }

    /// The four bits in which a multicast address carries its scope.
    pub fn multicast_scope_id(&self) -> (id: u8)
        ensures
            id == self.spec_multicast_scope_id(),
            id < 16,
    {
        ((self.bits / IPV6_SCOPE_UNIT) % 16) as u8
    }
}

impl IpAddress for Ipv6Addr {
    /// The multicast range of IPv6 is ff00::/8.
    open spec fn spec_is_multicast(&self) -> bool {
        self.bits >= IPV6_MULTICAST_FIRST
    }

    open spec fn spec_is_specified(&self) -> bool {
        self.bits != 0
    }

    fn is_multicast(&self) -> (b: bool) {
        self.bits >= IPV6_MULTICAST_FIRST
    }

    fn is_specified(&self) -> (b: bool) {
        self.bits != 0
    }

    open spec fn spec_number(&self) -> nat {
        self.bits as nat
    }

    fn addr_eq(&self, other: &Self) -> (b: bool) {
        self.bits == other.bits
    }

    fn number_le(&self, other: &Self) -> (b: bool) {
        self.bits <= other.bits
    }

    proof fn lemma_number_is_address(a: Self, b: Self) {
    }
}

/// An address that is known to be a multicast address.
#[derive(Copy, Debug, PartialEq, Eq, PartialOrd, Ord, Hash)]
pub struct MulticastAddr<A: IpAddress> {
    pub(crate) addr: A,
}

impl<A: IpAddress> Clone for MulticastAddr<A> {
    fn clone(&self) -> (r: Self)
        ensures
            r == *self,
    {
        proof {
            use_type_invariant(self);
        }
        MulticastAddr { addr: self.addr }
    }
}

impl<A: IpAddress> MulticastAddr<A> {
    /// What every value of this type meets: its address is a multicast
    /// address.
    #[verifier::type_invariant]
    pub closed spec fn is_witness(self) -> bool {
        self.addr.spec_is_multicast()
    }

    /// The address itself.
    pub closed spec fn spec_get(self) -> A {
        self.addr
    }

    /// The multicast address `addr`. Only meaningful where `addr` is one.
    pub closed spec fn spec_new(addr: A) -> Self {
        MulticastAddr { addr }
    }

    /// `spec_new` and `spec_get` undo each other.
    pub proof fn lemma_spec_new(m: Self, addr: A)
        ensures
            Self::spec_new(m.spec_get()) == m,
            Self::spec_new(addr).spec_get() == addr,
    {
    }

    /// Wraps `addr`, or returns `None` where it is no multicast address.
    pub fn new(addr: A) -> (r: Option<Self>)
        ensures
            addr.spec_is_multicast() ==> r == Some(Self::spec_new(addr)) && r->0.spec_get()
                == addr,
            !addr.spec_is_multicast() ==> r is None,
    {
        if addr.is_multicast() {
            Some(MulticastAddr { addr })
        } else {
            None
        }
    }

    /// The address itself, which is a multicast address.
    pub fn get(&self) -> (a: A)
        ensures
            a == self.spec_get(),
            a.spec_is_multicast(),
    {
        proof {
            use_type_invariant(self);
        }
        self.addr
    }

    /// Whether the two are the same address.
    pub fn same(&self, other: &Self) -> (b: bool)
        ensures
            b == (*self == *other),
    {
        self.addr.addr_eq(&other.addr)
    }

    /// Whether this address, as a number, is at most `other`.
    pub fn number_le(&self, other: &Self) -> (b: bool)
        ensures
            b == (self.spec_get().spec_number() <= other.spec_get().spec_number()),
    {
        self.addr.number_le(&other.addr)
    }

    /// Two multicast addresses that are the same number are the same
    /// address.
    pub proof fn lemma_number_is_address(a: Self, b: Self)
        ensures
            a.spec_get().spec_number() == b.spec_get().spec_number() ==> a == b,
    {
        A::lemma_number_is_address(a.addr, b.addr);
    }
}

/// The IP version of a group management protocol: its address type, and the
/// groups for which the protocol runs at all.
pub trait IpExt: Sized {
    /// The addresses of this IP version.
    type Addr: IpAddress;

    /// Whether the protocol runs for `addr`. For the others a host only
    /// records its membership and never sends or expects a message.
    spec fn spec_should_perform_gmp(addr: MulticastAddr<Self::Addr>) -> bool;

    /// Whether the protocol runs for `addr`.
    fn should_perform_gmp(addr: MulticastAddr<Self::Addr>) -> (b: bool)
        ensures
            b == Self::spec_should_perform_gmp(addr),
    ;
}

/// IPv4, whose group management protocol is IGMP.
#[derive(Clone, Copy, Debug, PartialEq, Eq)]
pub struct Ipv4;

/// IPv6, whose group management protocol is MLD.
#[derive(Clone, Copy, Debug, PartialEq, Eq)]
pub struct Ipv6;

/// 224.0.0.1, to which every system on the link listens.
pub const IPV4_ALL_SYSTEMS: u32 = 0xE000_0001;

/// 224.0.0.2, to which every router on the link listens.
pub const IPV4_ALL_ROUTERS: u32 = 0xE000_0002;

/// ff02::1, to which every node on the link listens.
pub const IPV6_ALL_NODES_LINK_LOCAL: u128 = 0xff02_0000_0000_0000_0000_0000_0000_0001;

/// ff02::2, to which every router on the link listens.
pub const IPV6_ALL_ROUTERS_LINK_LOCAL: u128 = 0xff02_0000_0000_0000_0000_0000_0000_0002;

impl Ipv4 {
    /// The all-zero address, which stands for "no address".
    pub fn unspecified_address() -> (a: Ipv4Addr)
        ensures
            a.bits == 0,
    {
        Ipv4Addr { bits: 0 }
    }

    /// 224.0.0.1 as a multicast address.
    pub fn all_systems_multicast_address() -> (m: MulticastAddr<Ipv4Addr>)
        ensures
            m.spec_get().bits == IPV4_ALL_SYSTEMS,
    {
        MulticastAddr { addr: Ipv4Addr { bits: IPV4_ALL_SYSTEMS } }
    }

    /// 224.0.0.2 as a multicast address.
    pub fn all_routers_multicast_address() -> (m: MulticastAddr<Ipv4Addr>)
        ensures
            m.spec_get().bits == IPV4_ALL_ROUTERS,
    {
        MulticastAddr { addr: Ipv4Addr { bits: IPV4_ALL_ROUTERS } }
    }
}

impl IpExt for Ipv4 {
    type Addr = Ipv4Addr;

    /// IGMP runs for every group but 224.0.0.1: a host is always a member of
    /// the all-systems group and never reports it.
    open spec fn spec_should_perform_gmp(addr: MulticastAddr<Ipv4Addr>) -> bool {
        addr.spec_get().bits != IPV4_ALL_SYSTEMS
    }

    fn should_perform_gmp(addr: MulticastAddr<Ipv4Addr>) -> (b: bool) {
        addr.get().bits != IPV4_ALL_SYSTEMS
    }
}

impl Ipv6 {
    /// The all-zero address, which stands for "no address".
    pub fn unspecified_address() -> (a: Ipv6Addr)
        ensures
            a.bits == 0,
    {
        Ipv6Addr { bits: 0 }
    }

    /// ff02::1 as a multicast address.
    pub fn all_nodes_link_local_multicast_address() -> (m: MulticastAddr<Ipv6Addr>)
        ensures
            m.spec_get().bits == IPV6_ALL_NODES_LINK_LOCAL,
    {
        MulticastAddr { addr: Ipv6Addr { bits: IPV6_ALL_NODES_LINK_LOCAL } }
    }

    /// ff02::2 as a multicast address.
    pub fn all_routers_link_local_multicast_address() -> (m: MulticastAddr<Ipv6Addr>)
        ensures
            m.spec_get().bits == IPV6_ALL_ROUTERS_LINK_LOCAL,
    {
        MulticastAddr { addr: Ipv6Addr { bits: IPV6_ALL_ROUTERS_LINK_LOCAL } }
    }
}

impl IpExt for Ipv6 {
    type Addr = Ipv6Addr;

    /// MLD runs for every group but ff02::1 and the groups of scope 0
    /// (reserved) and 1 (interface-local), about which no MLD message is ever
    /// sent.
    open spec fn spec_should_perform_gmp(addr: MulticastAddr<Ipv6Addr>) -> bool {
        &&& addr.spec_get().bits != IPV6_ALL_NODES_LINK_LOCAL
        &&& addr.spec_get().spec_multicast_scope_id() != IPV6_SCOPE_RESERVED_0
        &&& addr.spec_get().spec_multicast_scope_id() != IPV6_SCOPE_INTERFACE_LOCAL
    }

    fn should_perform_gmp(addr: MulticastAddr<Ipv6Addr>) -> (b: bool) {
        let a = addr.get();
        let scope = a.multicast_scope_id();
        a.bits != IPV6_ALL_NODES_LINK_LOCAL && scope != IPV6_SCOPE_RESERVED_0 && scope
            != IPV6_SCOPE_INTERFACE_LOCAL
    }
}

} // verus!
