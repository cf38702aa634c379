//! Plain address values exchanged with the link-layer stack.

use vstd::prelude::*;

verus! {

/// The 16-bit group whose high byte is `hi` and whose low byte is `lo`.
pub open spec fn group_of(hi: u8, lo: u8) -> u16 {
    ((hi as u16) << 8) | (lo as u16)
}

/// The high byte of a 16-bit group.
pub open spec fn high_byte(group: u16) -> u8 {
    (group >> 8) as u8
}

/// The low byte of a 16-bit group.
pub open spec fn low_byte(group: u16) -> u8 {
    (group & 0xff) as u8
}

/// Splitting a group into bytes and joining two bytes into a group are
/// inverse to each other.
pub proof fn lemma_group_bytes(hi: u8, lo: u8, group: u16)
    ensures
        high_byte(group_of(hi, lo)) == hi,
        low_byte(group_of(hi, lo)) == lo,
        group_of(high_byte(group), low_byte(group)) == group,
{
    assert(((((hi as u16) << 8) | (lo as u16)) >> 8) as u8 == hi) by (bit_vector);
    assert(((((hi as u16) << 8) | (lo as u16)) & 0xff) as u8 == lo) by (bit_vector);
    assert(((((group >> 8) as u8) as u16) << 8) | (((group & 0xff) as u8) as u16) == group)
        by (bit_vector);
}

/// Computes the group whose high byte is `hi` and whose low byte is `lo`.
pub fn group_from_bytes(hi: u8, lo: u8) -> (group: u16)
    ensures
        group == group_of(hi, lo),
{
    ((hi as u16) << 8) | (lo as u16)
}

/// An IPv4 address.
#[derive(Clone, Copy, Debug, PartialEq, Eq)]
pub struct Ipv4Addr {
    /// The octets, in network order.
    pub octets: [u8; 4],
}

impl Ipv4Addr {
    /// Builds the address `a.b.c.d`.
    pub fn new(a: u8, b: u8, c: u8, d: u8) -> (addr: Self)
        ensures
            addr.octets@ == seq![a, b, c, d],
    {
        Ipv4Addr { octets: [a, b, c, d] }
    }

    /// Returns the four octets of the address.
    pub fn octets(&self) -> (out: [u8; 4])
        ensures
            out == self.octets,
    {
        self.octets
    }
}

/// An IPv6 address.
#[derive(Clone, Copy, Debug, PartialEq, Eq)]
pub struct Ipv6Addr {
    /// The octets, in network order.
    pub octets: [u8; 16],
}

impl Ipv6Addr {
    /// The eight 16-bit groups of the address, most significant first.
    pub open spec fn spec_segments(self) -> Seq<u16> {
        Seq::new(8, |i: int| group_of(self.octets@[2 * i], self.octets@[2 * i + 1]))
    }

    /// Two addresses with the same octets are the same address.
    pub proof fn lemma_octets_determine(self, other: Self)
        requires
            self.octets@ == other.octets@,
        ensures
            self == other,
    {
        assert(self.octets =~= other.octets);
    }

    /// Builds an address from its eight 16-bit groups, most significant first.
    pub fn new(a: u16, b: u16, c: u16, d: u16, e: u16, f: u16, g: u16, h: u16) -> (addr: Self)
        ensures
            addr.spec_segments() == seq![a, b, c, d, e, f, g, h],
            addr.octets@ == seq![
                high_byte(a),
                low_byte(a),
                high_byte(b),
                low_byte(b),
                high_byte(c),
                low_byte(c),
                high_byte(d),
                low_byte(d),
                high_byte(e),
                low_byte(e),
                high_byte(f),
                low_byte(f),
                high_byte(g),
                low_byte(g),
                high_byte(h),
                low_byte(h),
            ],
    {
        let addr = Ipv6Addr {
            octets: [
                (a >> 8) as u8,
                (a & 0xff) as u8,
                (b >> 8) as u8,
                (b & 0xff) as u8,
                (c >> 8) as u8,
                (c & 0xff) as u8,
                (d >> 8) as u8,
                (d & 0xff) as u8,
                (e >> 8) as u8,
                (e & 0xff) as u8,
                (f >> 8) as u8,
                (f & 0xff) as u8,
                (g >> 8) as u8,
                (g & 0xff) as u8,
                (h >> 8) as u8,
                (h & 0xff) as u8,
            ],
        };
        proof {
            lemma_group_bytes(0, 0, a);
            lemma_group_bytes(0, 0, b);
            lemma_group_bytes(0, 0, c);
            lemma_group_bytes(0, 0, d);
            lemma_group_bytes(0, 0, e);
            lemma_group_bytes(0, 0, f);
            lemma_group_bytes(0, 0, g);
            lemma_group_bytes(0, 0, h);
            assert(addr.spec_segments() =~= seq![a, b, c, d, e, f, g, h]);
        }
        addr
    }

    /// Returns the sixteen octets of the address.
    pub fn octets(&self) -> (out: [u8; 16])
        ensures
            out == self.octets,
    {
        self.octets
    }

    /// Returns the eight 16-bit groups of the address, most significant first.
    pub fn segments(&self) -> (out: [u16; 8])
        ensures
            out@ == self.spec_segments(),
    {
        let o = &self.octets;
        let out = [
            group_from_bytes(o[0], o[1]),
            group_from_bytes(o[2], o[3]),
            group_from_bytes(o[4], o[5]),
            group_from_bytes(o[6], o[7]),
            group_from_bytes(o[8], o[9]),
            group_from_bytes(o[10], o[11]),
            group_from_bytes(o[12], o[13]),
            group_from_bytes(o[14], o[15]),
        ];
        assert(out@ =~= self.spec_segments());
        out
    }
}

/// An IPv4 address together with the length of its network prefix.
#[derive(Clone, Copy, Debug, PartialEq, Eq)]
pub struct Ipv4Cidr {
    /// The address part.
    pub address: Ipv4Addr,
    /// The prefix length, in bits.
    pub prefix_len: u8,
}

impl Ipv4Cidr {
    /// A prefix is never longer than the address.
    pub open spec fn wf(self) -> bool {
        self.prefix_len <= 32
    }

    /// Builds the block `address/prefix_len`.
    pub fn new(address: Ipv4Addr, prefix_len: u8) -> (cidr: Self)
        requires
            prefix_len <= 32,
        ensures
            cidr == (Ipv4Cidr { address, prefix_len }),
            cidr.wf(),
    {
        Ipv4Cidr { address, prefix_len }
    }

    /// Returns the address part.
    pub fn address(&self) -> (addr: Ipv4Addr)
        ensures
            addr == self.address,
    {
        self.address
    }
}

/// An IPv6 address together with the length of its network prefix.
#[derive(Clone, Copy, Debug, PartialEq, Eq)]
pub struct Ipv6Cidr {
    /// The address part.
    pub address: Ipv6Addr,
    /// The prefix length, in bits.
    pub prefix_len: u8,
}

impl Ipv6Cidr {
    /// A prefix is never longer than the address.
    pub open spec fn wf(self) -> bool {
        self.prefix_len <= 128
    }

    /// Builds the block `address/prefix_len`.
    pub fn new(address: Ipv6Addr, prefix_len: u8) -> (cidr: Self)
        requires
            prefix_len <= 128,
        ensures
            cidr == (Ipv6Cidr { address, prefix_len }),
            cidr.wf(),
    {
        Ipv6Cidr { address, prefix_len }
    }

    /// Returns the address part.
    pub fn address(&self) -> (addr: Ipv6Addr)
        ensures
            addr == self.address,
    {
        self.address
    }
}

/// An address of either family.
#[derive(Clone, Copy, Debug, PartialEq, Eq)]
pub enum IpAddr {
    /// An IPv4 address.
    V4(Ipv4Addr),
    /// An IPv6 address.
    V6(Ipv6Addr),
}

/// A socket address: an IP address and a port.
#[derive(Clone, Copy, Debug, PartialEq, Eq)]
pub struct SocketAddr {
    /// The IP address.
    pub ip: IpAddr,
    /// The port.
    pub port: u16,
}

/// The link-layer address that a network driver reports.
#[derive(Clone, Copy, Debug, PartialEq, Eq)]
pub enum HardwareAddress {
    /// A 6-octet Ethernet address.
    Ethernet([u8; 6]),
    /// An 8-octet IEEE 802.15.4 address.
    Ieee802154([u8; 8]),
    /// The driver works at the IP layer and has no link-layer address.
    Ip,
}

} // verus!
