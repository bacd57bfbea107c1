//! Network addresses of peers, and the canonical block of bytes from which
//! the identifier of an address is derived.

use vstd::prelude::*;

verus! {

/// An IP address, by its octets in network order.
#[derive(Clone, Copy, Debug, PartialEq, Eq, PartialOrd, Ord, Hash)]
pub enum IpAddress {
    /// The four octets of an IPv4 address.
    V4([u8; 4]),
    /// The sixteen octets of an IPv6 address.
    V6([u8; 16]),
}

/// An IP address together with a port.
#[derive(Clone, Copy, Debug, PartialEq, Eq, PartialOrd, Ord, Hash)]
pub struct SocketAddress {
    pub ip: IpAddress,
    pub port: u16,
}

impl IpAddress {
    /// The sixteen octets under which the address takes part in an
    /// identifier: an IPv6 address as it is, an IPv4 address `a.b.c.d` as the
    /// IPv4-mapped address `::ffff:a.b.c.d`.
    pub open spec fn ipv6_octets(self) -> Seq<u8> {
        match self {
            IpAddress::V4(octets) => seq![0u8, 0u8, 0u8, 0u8, 0u8, 0u8, 0u8, 0u8, 0u8, 0u8, 0xffu8, 0xffu8]
                + octets@,
            IpAddress::V6(octets) => octets@,
        }
    }

    /// Computes `ipv6_octets`.
    pub fn to_ipv6_octets(&self) -> (octets: [u8; 16])
        ensures
            octets@ == self.ipv6_octets(),
    {
        match self {
            IpAddress::V4(v4) => {
                let octets = [0, 0, 0, 0, 0, 0, 0, 0, 0, 0, 0xff, 0xff, v4[0], v4[1], v4[2], v4[3]];
                assert(octets@ =~= self.ipv6_octets());
                octets
            },
            IpAddress::V6(v6) => *v6,
        }
    }
}

impl SocketAddress {
    /// The socket address of `ip` and `port`.
    pub fn new(ip: IpAddress, port: u16) -> (addr: SocketAddress)
        ensures
            addr == (SocketAddress { ip, port }),
    {
        SocketAddress { ip, port }
    }
}

/// The canonical block of an address: the sixteen octets of its IPv6 form,
/// then the port with its high byte first. It has eighteen bytes.
pub open spec fn address_block(ip: IpAddress, port: u16) -> Seq<u8> {
    ip.ipv6_octets() + seq![(port / 256) as u8, (port % 256) as u8]
}

/// Computes `address_block`.
pub fn canonical_block(ip: IpAddress, port: u16) -> (block: [u8; 18])
    ensures
        block@ == address_block(ip, port),
{
    let octets = ip.to_ipv6_octets();
    let mut block = [0u8; 18];
    let mut i: usize = 0;
    while i < 16
        invariant
            i <= 16,
            forall|j: int| 0 <= j < i ==> block@[j] == octets@[j],
        decreases 16 - i,
    {
        block[i] = octets[i];
        i += 1;
    }
    assert(((port >> 8) & 0xff) == port / 256 && (port & 0xff) == port % 256) by (bit_vector);
    block[16] = ((port >> 8) & 0xff) as u8;
    block[17] = (port & 0xff) as u8;
    assert(block@ =~= address_block(ip, port));
    block
}

/// Two addresses have the same canonical block only if they have the same
/// port and the same IPv6 form. An IPv4 address and the IPv6 address that it
/// is mapped to share their block.
pub proof fn lemma_address_block_injective(ip1: IpAddress, port1: u16, ip2: IpAddress, port2: u16)
    ensures
        address_block(ip1, port1) == address_block(ip2, port2) <==> ip1.ipv6_octets()
            == ip2.ipv6_octets() && port1 == port2,
{
    let b1 = address_block(ip1, port1);
    let b2 = address_block(ip2, port2);
    assert(ip1.ipv6_octets().len() == 16 && ip2.ipv6_octets().len() == 16);
    if b1 == b2 {
        assert(ip1.ipv6_octets() =~= b1.subrange(0, 16));
        assert(ip2.ipv6_octets() =~= b2.subrange(0, 16));
        assert(b1[16] == b2[16] && b1[17] == b2[17]);
    }
}

} // verus!
