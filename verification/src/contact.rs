//! A peer of the network: its identifier and, where it is known, its address.

use crate::address::{address_block, canonical_block, IpAddress, SocketAddress};
use crate::digest::{blake2b_512, hash};
use crate::distance::{distance, lemma_distance_zero, lemma_zero_run_unique};
use crate::entropy::random_byte;
use crate::node_id::{bit, NodeId, B};
use vstd::prelude::*;

verus! {

/// Number of random bytes that are hashed to a random identifier.
pub const RAND_BLOCK_SIZE: usize = 16;

/// The identifier of the peer at an address: the digest of the canonical
/// block of the address.
pub open spec fn address_id(ip: IpAddress, port: u16) -> Seq<u8> {
    blake2b_512(address_block(ip, port))
}

/// A known or potential peer. It carries an address exactly when it was made
/// from one, and its identifier is then the one derived from that address.
pub struct Contact {
    id: NodeId,
    addr: Option<SocketAddress>,
}

/// What a contact holds.
pub struct ContactView {
    pub id: NodeId,
    pub addr: Option<SocketAddress>,
}

impl View for Contact {
    type V = ContactView;

    closed spec fn view(&self) -> ContactView {
        ContactView { id: self.id, addr: self.addr }
    }
}

impl ContactView {
    /// The identifier of a contact with an address is the one derived from
    /// the address.
    pub open spec fn wf(self) -> bool {
        match self.addr {
            Some(addr) => self.id@ == address_id(addr.ip, addr.port),
            None => true,
        }
    }
}

impl Contact {
    #[verifier::type_invariant]
    spec fn inv(&self) -> bool {
        self@.wf()
    }

    /// The identifier of the peer.
    pub fn id(&self) -> (id: NodeId)
        ensures
            id == self@.id,
    {
        self.id
    }

    /// The address of the peer, if the contact was made from one.
    pub fn addr(&self) -> (addr: Option<SocketAddress>)
        ensures
            addr == self@.addr,
            self@.wf(),
    {
        proof {
            use_type_invariant(self);
        }
        self.addr
    }

    /// A contact without an address whose identifier is the digest of 16
    /// random bytes.
    pub fn random() -> (contact: Contact)
        ensures
            contact@.addr is None,
            exists|block: Seq<u8>|
                block.len() == RAND_BLOCK_SIZE && contact@.id@ == blake2b_512(block),
    {
        let mut rand_block: [u8; 16] = [0u8; 16];
        let mut i: usize = 0;
        while i < RAND_BLOCK_SIZE
            invariant
                i <= RAND_BLOCK_SIZE,
            decreases RAND_BLOCK_SIZE - i,
        {
            rand_block[i] = random_byte();
            i += 1;
        }
        Contact::from_random_block(rand_block)
    }

    /// The contact without an address whose identifier is the digest of the
    /// given 16 bytes.
    pub fn from_random_block(rand_block: [u8; 16]) -> (contact: Contact)
        ensures
            contact@.addr is None,
            contact@.id@ == blake2b_512(rand_block@),
    {
        Contact { id: hash(rand_block.as_slice()), addr: None }
    }

    /// The contact of the peer at `ip` and `port`.
    pub fn new(ip: IpAddress, port: u16) -> (contact: Contact)
        ensures
            contact@.id@ == address_id(ip, port),
            contact@.addr == Some(SocketAddress { ip, port }),
    {
        Contact { id: Contact::hash(ip, port), addr: Some(SocketAddress::new(ip, port)) }
    }

    /// The contact with the given identifier and no address.
    pub fn from_hash(id: NodeId) -> (contact: Contact)
        ensures
            contact@.id == id,
            contact@.addr is None,
    {
        Contact { id, addr: None }
    }

    /// The identifier of the peer at `ip` and `port`: the digest of the
    /// canonical block of the address.
    pub fn hash(ip: IpAddress, port: u16) -> (id: NodeId)
        ensures
            id@ == address_id(ip, port),
    {
        let block = canonical_block(ip, port);
        hash(block.as_slice())
    }

    /// The distance to `target`: `B` less the number of leading bits that the
    /// two identifiers share.
    pub fn log2_distance(&self, target: &Self) -> (d: usize)
        ensures
            d == distance(self@.id, target@.id),
    {
        let distance = self.id.xor(&target.id);
        let distance_as_bytes = distance.as_bytes();
        let ghost x = distance@;

        let mut same_prefix_length: usize = 0;
        let mut i: usize = 0;
        'outer: while i < 64
            invariant_except_break
                i <= 64,
                same_prefix_length == 8 * i,
            invariant
                x == distance_as_bytes@,
                x.len() == 64,
                forall|j: int| 0 <= j < same_prefix_length ==> !bit(x, j),
            ensures
                same_prefix_length <= B,
                same_prefix_length < B ==> bit(x, same_prefix_length as int),
            decreases 64 - i,
        {
            let byte = distance_as_bytes[i];
            let mut k: u8 = 0;
            while k < 8
                invariant
                    k <= 8,
                    i < 64,
                    byte == x[i as int],
                    x == distance_as_bytes@,
                    x.len() == 64,
                    same_prefix_length == 8 * i + k,
                    forall|j: int| 0 <= j < same_prefix_length ==> !bit(x, j),
                decreases 8 - k,
            {
                let mask = 0x80u8 >> k;
                assert((8 * i + k) / 8 == i && (8 * i + k) % 8 == k);
                if byte & mask != 0 {
                    break 'outer;
                }
                same_prefix_length += 1;
                k += 1;
            }
            i += 1;
        }
        proof {
            lemma_zero_run_unique(x, 0, same_prefix_length as nat);
        }
        B - same_prefix_length
    }
}

/// Deriving an identifier from one address twice gives the same bytes both
/// times, so the two results are at distance zero.
pub proof fn lemma_address_id_deterministic(ip: IpAddress, port: u16, first: NodeId, second: NodeId)
    requires
        first@ == address_id(ip, port),
        second@ == address_id(ip, port),
    ensures
        first@ == second@,
        distance(first, second) == 0,
{
    lemma_distance_zero(first, second);
}

/// Two contacts with the same address have the same identifier.
pub proof fn lemma_same_address_same_id(a: ContactView, b: ContactView)
    requires
        a.wf(),
        b.wf(),
        a.addr is Some,
        a.addr == b.addr,
    ensures
        a.id@ == b.id@,
        distance(a.id, b.id) == 0,
{
    lemma_distance_zero(a.id, b.id);
}

} // verus!
