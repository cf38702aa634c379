//! Network abstraction: the configuration handed to the link-layer stack,
//! the addresses derived from a hardware address, and the pool of UDP
//! socket buffers.

use crate::bounded::{dns_server_list, dns_servers_as_slice, dns_servers_new};
use crate::net::{
    group_from_bytes, group_of, lemma_group_bytes, HardwareAddress, Ipv6Addr, Ipv6Cidr,
    SocketAddr,
};
use vstd::prelude::*;

verus! {

/// The number of sockets that the protocol engine uses: one for its own
/// traffic and one for service discovery.
pub const MAX_SOCKETS: usize = 2;

/// The smallest socket set that the link-layer stack may be given: the
/// engine's sockets and two more for the stack's own DHCP and DNS.
pub const MIN_SOCKET_SET: usize = MAX_SOCKETS + 2;

/// The hardware address of IPv4 service-discovery multicast.
pub const MDNS_MULTICAST_MAC_IPV4: [u8; 6] = [0x01, 0x00, 0x5e, 0x00, 0x00, 0xfb];

/// The hardware address of IPv6 service-discovery multicast.
pub const MDNS_MULTICAST_MAC_IPV6: [u8; 6] = [0x33, 0x33, 0x00, 0x00, 0x00, 0xfb];

/// The prefix length of the link-local address block `fe80::/10`.
pub const LINK_LOCAL_PREFIX_LEN: u8 = 10;

/// The link-local address of the interface whose hardware address is `mac`:
/// `fe80::` followed by the interface identifier made from `mac`.
pub open spec fn link_local_ipv6(mac: [u8; 6]) -> Ipv6Addr {
    Ipv6Addr {
        octets: [
            0xfe,
            0x80,
            0,
            0,
            0,
            0,
            0,
            0,
            mac[0] ^ 0x02,
            mac[1],
            mac[2],
            0xff,
            0xfe,
            mac[3],
            mac[4],
            mac[5],
        ],
    }
}

/// The interface identifier of an address: its low 64 bits.
pub open spec fn interface_identifier(addr: Ipv6Addr) -> Seq<u8> {
    addr.octets@.subrange(8, 16)
}

/// The multicast hardware address that belongs to the address `ip`.
pub open spec fn multicast_mac(ip: Ipv6Addr) -> Seq<u8> {
    seq![0x33u8, 0x33u8, 0xffu8, ip.octets[13], ip.octets[14], ip.octets[15]]
}

/// The groups of a link-local address are `fe80:0:0:0` and then
/// `(m0 ^ 2) << 8 | m1`, `m2 << 8 | 0xff`, `0xfe << 8 | m3`, `m4 << 8 | m5`.
pub proof fn lemma_link_local_segments(mac: [u8; 6])
    ensures
        link_local_ipv6(mac).spec_segments() == seq![
            0xfe80u16,
            0u16,
            0u16,
            0u16,
            group_of(mac[0] ^ 0x02, mac[1]),
            group_of(mac[2], 0xff),
            group_of(0xfe, mac[3]),
            group_of(mac[4], mac[5]),
        ],
{
    assert(group_of(0xfe, 0x80) == 0xfe80u16) by (bit_vector);
    assert(group_of(0, 0) == 0u16) by (bit_vector);
    assert(link_local_ipv6(mac).spec_segments() =~= seq![
        0xfe80u16,
        0u16,
        0u16,
        0u16,
        group_of(mac[0] ^ 0x02, mac[1]),
        group_of(mac[2], 0xff),
        group_of(0xfe, mac[3]),
        group_of(mac[4], mac[5]),
    ]);
}

/// Two hardware addresses that lead to the same interface identifier are
/// the same hardware address.
pub proof fn lemma_link_local_injective(mac: [u8; 6], other: [u8; 6])
    requires
        interface_identifier(link_local_ipv6(mac)) == interface_identifier(
            link_local_ipv6(other),
        ),
    ensures
        mac == other,
{
    let a = interface_identifier(link_local_ipv6(mac));
    let b = interface_identifier(link_local_ipv6(other));
    assert(a[0] == b[0] && a[1] == b[1] && a[2] == b[2]);
    assert(a[5] == b[5] && a[6] == b[6] && a[7] == b[7]);
    let x = mac[0];
    let y = other[0];
    assert((x ^ 0x02) == (y ^ 0x02) ==> x == y) by (bit_vector);
    assert(mac =~= other);
}

/// A link-local address keeps the hardware address: every octet of it can
/// be read back from the interface identifier.
pub proof fn lemma_link_local_keeps_mac(mac: [u8; 6])
    ensures
        ({
            let id = interface_identifier(link_local_ipv6(mac));
            &&& id.len() == 8
            &&& id[0] ^ 0x02 == mac[0]
            &&& id[1] == mac[1]
            &&& id[2] == mac[2]
            &&& id[3] == 0xff
            &&& id[4] == 0xfe
            &&& id[5] == mac[3]
            &&& id[6] == mac[4]
            &&& id[7] == mac[5]
        }),
{
    let x = mac[0];
    assert((x ^ 0x02) ^ 0x02 == x) by (bit_vector);
}

/// Derives the link-local IPv6 address of an interface from its hardware
/// address.
pub fn create_link_local_ipv6(mac: &[u8; 6]) -> (addr: Ipv6Addr)
    ensures
        addr == link_local_ipv6(*mac),
{
    let addr = Ipv6Addr::new(
        0xfe80,
        0,
        0,
        0,
        group_from_bytes(mac[0] ^ 0x02, mac[1]),
        group_from_bytes(mac[2], 0xff),
        group_from_bytes(0xfe, mac[3]),
        group_from_bytes(mac[4], mac[5]),
    );
    proof {
        assert(group_of(0xfe, 0x80) == 0xfe80u16) by (bit_vector);
        assert(group_of(0, 0) == 0u16) by (bit_vector);
        lemma_group_bytes(0xfe, 0x80, 0);
        lemma_group_bytes(0, 0, 0);
        lemma_group_bytes(mac[0] ^ 0x02, mac[1], 0);
        lemma_group_bytes(mac[2], 0xff, 0);
        lemma_group_bytes(0xfe, mac[3], 0);
        lemma_group_bytes(mac[4], mac[5], 0);
        assert(addr.octets@ =~= link_local_ipv6(*mac).octets@);
        addr.lemma_octets_determine(link_local_ipv6(*mac));
    }
    addr
}

/// Returns the multicast hardware address that belongs to a link-local
/// IPv6 address: `33:33:ff` and the last three octets of the address.
pub fn multicast_mac_for_link_local_ipv6(ip: &Ipv6Addr) -> (mac: [u8; 6])
    ensures
        mac@ == multicast_mac(*ip),
{
    let mac = [0x33, 0x33, 0xff, ip.octets[13], ip.octets[14], ip.octets[15]];
    assert(mac@ =~= multicast_mac(*ip));
    mac
}

/// How the stack obtains its IPv4 address.
#[derive(Clone, Copy, Debug, PartialEq, Eq)]
pub enum ConfigV4 {
    /// IPv4 stays unconfigured.
    Off,
    /// The address is negotiated by DHCP, with the stack's default settings.
    Dhcp,
}

/// A static IPv6 configuration.
#[derive(Debug, PartialEq, Eq)]
pub struct StaticConfigV6 {
    /// The address and its prefix length.
    pub address: Ipv6Cidr,
    /// The default gateway.
    pub gateway: Option<Ipv6Addr>,
    /// The name servers, each as its sixteen octets.
    pub dns_servers: heapless::Vec<[u8; 16], 3>,
}

/// What a [`StaticConfigV6`] holds.
pub struct StaticConfigV6View {
    /// The address and its prefix length.
    pub address: Ipv6Cidr,
    /// The default gateway.
    pub gateway: Option<Ipv6Addr>,
    /// The name servers, first to last.
    pub dns_servers: Seq<[u8; 16]>,
}

impl View for StaticConfigV6 {
    type V = StaticConfigV6View;

    open spec fn view(&self) -> StaticConfigV6View {
        StaticConfigV6View {
            address: self.address,
            gateway: self.gateway,
            dns_servers: dns_server_list(self.dns_servers),
        }
    }
}

impl StaticConfigV6 {
    /// Returns the number of name servers configured.
    pub fn dns_server_count(&self) -> (n: usize)
        ensures
            n == self@.dns_servers.len(),
    {
        dns_servers_as_slice(&self.dns_servers).len()
    }

    /// Returns the name server at position `i`, or `None` past the end.
    pub fn dns_server(&self, i: usize) -> (server: Option<Ipv6Addr>)
        ensures
            i < self@.dns_servers.len() ==> server == Some(
                Ipv6Addr { octets: self@.dns_servers[i as int] },
            ),
            i >= self@.dns_servers.len() ==> server is None,
    {
        let items = dns_servers_as_slice(&self.dns_servers);
        if i < items.len() {
            Some(Ipv6Addr { octets: items[i] })
        } else {
            None
        }
    }
}

/// How the stack obtains its IPv6 address.
#[derive(Debug, PartialEq, Eq)]
pub enum ConfigV6 {
    /// IPv6 stays unconfigured.
    Off,
    /// The address is fixed.
    Static(StaticConfigV6),
}

/// What a [`ConfigV6`] holds.
pub enum ConfigV6View {
    /// IPv6 stays unconfigured.
    Off,
    /// The address is fixed.
    Static(StaticConfigV6View),
}

impl View for ConfigV6 {
    type V = ConfigV6View;

    open spec fn view(&self) -> ConfigV6View {
        match self {
            ConfigV6::Off => ConfigV6View::Off,
            ConfigV6::Static(s) => ConfigV6View::Static(s@),
        }
    }
}

/// The configuration of a link-layer stack.
#[derive(Debug, PartialEq, Eq)]
pub struct Config {
    /// The IPv4 part.
    pub ipv4: ConfigV4,
    /// The IPv6 part.
    pub ipv6: ConfigV6,
}

/// What a [`Config`] holds.
pub struct ConfigView {
    /// The IPv4 part.
    pub ipv4: ConfigV4,
    /// The IPv6 part.
    pub ipv6: ConfigV6View,
}

impl View for Config {
    type V = ConfigView;

    open spec fn view(&self) -> ConfigView {
        ConfigView { ipv4: self.ipv4, ipv6: self.ipv6@ }
    }
}

/// The configuration of the stack over an interface whose hardware address
/// is `mac`: IPv4 by DHCP, and the link-local IPv6 address with prefix
/// length 10, no gateway and no name server.
pub open spec fn net_config(mac: [u8; 6]) -> ConfigView {
    ConfigView {
        ipv4: ConfigV4::Dhcp,
        ipv6: ConfigV6View::Static(
            StaticConfigV6View {
                address: Ipv6Cidr {
                    address: link_local_ipv6(mac),
                    prefix_len: LINK_LOCAL_PREFIX_LEN,
                },
                gateway: None,
                dns_servers: Seq::empty(),
            },
        ),
    }
}

/// Builds the stack configuration for a driver that reports
/// `hardware_address`. Only Ethernet-style drivers are served.
pub fn create_net_config(hardware_address: &HardwareAddress) -> (config: Config)
    requires
        hardware_address is Ethernet,
    ensures
        config@ == net_config(hardware_address->Ethernet_0),
{
    match hardware_address {
        HardwareAddress::Ethernet(mac) => {
            let address = Ipv6Cidr::new(create_link_local_ipv6(mac), LINK_LOCAL_PREFIX_LEN);
            Config {
                ipv4: ConfigV4::Dhcp,
                ipv6: ConfigV6::Static(
                    StaticConfigV6 { address, gateway: None, dns_servers: dns_servers_new() },
                ),
            }
        },
        _ => vstd::pervasive::unreached(),
    }
}

/// The failures of the UDP socket binder.
#[derive(Clone, Copy, Debug, PartialEq, Eq)]
pub enum UdpError {
    /// Every socket buffer of the pool is in use.
    NoBuffers,
}

/// A pool of `N` UDP socket buffers. Each buffer is either free or lent to
/// one bound socket; the pool never grows.
pub struct UdpBuffers<const N: usize> {
    used: [bool; N],
}

/// The buffer pool sized for the protocol engine.
pub type MatterUdpBuffers = UdpBuffers<MAX_SOCKETS>;

/// Every buffer of the pool is in use.
pub open spec fn is_full(used: Seq<bool>) -> bool {
    forall|i: int| 0 <= i < used.len() ==> used[i]
}

/// No buffer of the pool is in use.
pub open spec fn is_unused(used: Seq<bool>) -> bool {
    forall|i: int| 0 <= i < used.len() ==> !used[i]
}

/// Buffer `i` is free and every buffer before it is in use.
pub open spec fn is_first_free(used: Seq<bool>, i: int) -> bool {
    &&& 0 <= i < used.len()
    &&& !used[i]
    &&& forall|j: int| 0 <= j < i ==> used[j]
}

/// The pool after buffer `slot` has been given back; a `slot` that the pool
/// does not have changes nothing.
pub open spec fn after_release(used: Seq<bool>, slot: int) -> Seq<bool> {
    if 0 <= slot < used.len() {
        used.update(slot, false)
    } else {
        used
    }
}

/// A pool that is full lends nothing; once any of its buffers has been
/// given back, exactly that buffer is the next one lent.
pub proof fn lemma_exhausted_until_released(used: Seq<bool>, slot: int)
    requires
        is_full(used),
        0 <= slot < used.len(),
    ensures
        forall|i: int| !is_first_free(used, i),
        is_first_free(after_release(used, slot), slot),
        !is_full(after_release(used, slot)),
{
    assert(!after_release(used, slot)[slot]);
}

proof fn lemma_first_free_from(used: Seq<bool>, from: int) -> (i: int)
    requires
        0 <= from <= used.len(),
        forall|j: int| 0 <= j < from ==> used[j],
        !is_full(used),
    ensures
        is_first_free(used, i),
    decreases used.len() - from,
{
    if from < used.len() && used[from] {
        lemma_first_free_from(used, from + 1)
    } else {
        from
    }
}

/// A pool that is not full has a first free buffer, a full pool has none,
/// and no pool has two.
pub proof fn lemma_first_free(used: Seq<bool>)
    ensures
        is_full(used) <==> forall|i: int| !is_first_free(used, i),
        forall|i: int, j: int| is_first_free(used, i) && is_first_free(used, j) ==> i == j,
{
    if !is_full(used) {
        let i = lemma_first_free_from(used, 0);
        assert(is_first_free(used, i));
    }
    assert forall|i: int, j: int| is_first_free(used, i) && is_first_free(used, j) implies i
        == j by {
        if i < j {
            assert(used[i]);
        }
        if j < i {
            assert(used[j]);
        }
    }
}

impl<const N: usize> View for UdpBuffers<N> {
    type V = Seq<bool>;

    closed spec fn view(&self) -> Seq<bool> {
        self.used@
    }
}

impl<const N: usize> UdpBuffers<N> {
    /// A pool has exactly `N` buffers.
    pub proof fn lemma_capacity(&self)
        ensures
            self@.len() == N,
    {
    }

    /// Creates a pool in which every buffer is free.
    pub fn new() -> (pool: Self)
        ensures
            pool@.len() == N,
            is_unused(pool@),
    {
        UdpBuffers { used: [false;N] }
    }

    /// Makes every buffer of the pool free again, in place.
    pub fn init(&mut self)
        ensures
            final(self)@.len() == N,
            is_unused(final(self)@),
    {
        let mut i: usize = 0;
        while i < N
            invariant
                i <= N,
                self@.len() == N,
                forall|j: int| 0 <= j < i ==> !self@[j],
            decreases N - i,
        {
            self.used[i] = false;
            i += 1;
        }
    }

    /// Returns the number of buffers, free or not.
    pub fn capacity(&self) -> (n: usize)
        ensures
            n == N,
            n == self@.len(),
    {
        N
    }

    /// Tells whether buffer `slot` is in use.
    pub fn is_used(&self, slot: usize) -> (used: bool)
        ensures
            used == (slot < N && self@[slot as int]),
    {
        slot < N && self.used[slot]
    }

    /// Tells whether every buffer is in use.
    pub fn is_exhausted(&self) -> (full: bool)
        ensures
            full == is_full(self@),
    {
        let mut i: usize = 0;
        while i < N
            invariant
                i <= N,
                self@.len() == N,
                forall|j: int| 0 <= j < i ==> self@[j],
            decreases N - i,
        {
            if !self.used[i] {
                return false;
            }
            i += 1;
        }
        true
    }

    /// Lends the first free buffer and returns its index, or returns `None`
    /// and changes nothing when every buffer is in use.
    pub fn acquire(&mut self) -> (slot: Option<usize>)
        ensures
            final(self)@.len() == N,
            slot is None <==> is_full(old(self)@),
            slot is None ==> final(self)@ == old(self)@,
            slot matches Some(i) ==> is_first_free(old(self)@, i as int) && final(self)@ == old(
                self,
            )@.update(i as int, true),
    {
        let mut i: usize = 0;
        while i < N
            invariant
                i <= N,
                self@.len() == N,
                self@ == old(self)@,
                forall|j: int| 0 <= j < i ==> self@[j],
            decreases N - i,
        {
            if !self.used[i] {
                self.used[i] = true;
                return Some(i);
            }
            i += 1;
        }
        None
    }

    /// Takes buffer `slot` back. A `slot` that the pool does not have
    /// changes nothing.
    pub fn release(&mut self, slot: usize)
        ensures
            final(self)@ == after_release(old(self)@, slot as int),
    {
        if slot < N {
            self.used[slot] = false;
        }
    }
}

/// A bound UDP socket: the buffer it holds and the address it is bound to.
#[derive(Debug, PartialEq, Eq)]
pub struct UdpSocket {
    slot: usize,
    local: SocketAddr,
}

impl UdpSocket {
    /// The index of the buffer that the socket holds.
    pub closed spec fn spec_slot(&self) -> usize {
        self.slot
    }

    /// The address that the socket is bound to.
    pub closed spec fn spec_local(&self) -> SocketAddr {
        self.local
    }

    /// Returns the index of the buffer that the socket holds.
    pub fn slot(&self) -> (slot: usize)
        ensures
            slot == self.spec_slot(),
    {
        self.slot
    }

    /// Returns the address that the socket is bound to.
    pub fn local(&self) -> (local: SocketAddr)
        ensures
            local == self.spec_local(),
    {
        self.local
    }

    /// Closes the socket and gives its buffer back to `buffers`.
    pub fn close<const N: usize>(self, buffers: &mut UdpBuffers<N>)
        ensures
            final(buffers)@ == after_release(old(buffers)@, self.spec_slot() as int),
    {
        buffers.release(self.slot);
    }
}

/// Binds a socket to `local`, taking its buffer from `buffers`.
///
/// Fails with [`UdpError::NoBuffers`], and changes nothing, exactly when
/// every buffer is in use. Otherwise the socket holds the first free buffer.
pub fn udp_bind<const N: usize>(buffers: &mut UdpBuffers<N>, local: SocketAddr) -> (socket: Result<
    UdpSocket,
    UdpError,
>)
    ensures
        socket is Err <==> is_full(old(buffers)@),
        socket matches Err(e) ==> e == UdpError::NoBuffers && final(buffers)@ == old(buffers)@,
        socket matches Ok(s) ==> s.spec_local() == local && is_first_free(
            old(buffers)@,
            s.spec_slot() as int,
        ) && final(buffers)@ == old(buffers)@.update(s.spec_slot() as int, true),
{
    match buffers.acquire() {
        Some(slot) => Ok(UdpSocket { slot, local }),
        None => Err(UdpError::NoBuffers),
    }
}

} // verus!
