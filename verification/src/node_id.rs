//! The identifier of a peer: a string of `B` bits, held as bytes with the most
//! significant byte first.

use vstd::prelude::*;

verus! {

/// Width of the identifier space in bits.
pub const B: usize = 512;

/// Number of bytes of an identifier.
pub const ID_BYTES: usize = 64;

/// A point of the identifier space. Equality and order are byte-wise.
#[derive(Clone, Copy, Debug, PartialEq, Eq, PartialOrd, Ord, Hash)]
pub struct NodeId(pub [u8; 64]);

impl View for NodeId {
    type V = Seq<u8>;

    open spec fn view(&self) -> Seq<u8> {
        self.0@
    }
}

/// Bit `i` of a byte string, counted from the most significant bit of the
/// first byte.
pub open spec fn bit(bytes: Seq<u8>, i: int) -> bool {
    bytes[i / 8] & (0x80u8 >> ((i % 8) as u8)) != 0
}

/// The byte-wise exclusive or of two byte strings of one length.
pub open spec fn xor_bytes(a: Seq<u8>, b: Seq<u8>) -> Seq<u8> {
    Seq::new(a.len(), |i: int| a[i] ^ b[i])
}

impl NodeId {
    /// The identifier with the given bytes.
    pub fn new(bytes: [u8; 64]) -> (id: NodeId)
        ensures
            id@ == bytes@,
    {
        NodeId(bytes)
    }

    /// The bytes of the identifier, most significant first.
    pub fn as_bytes(&self) -> (bytes: &[u8; 64])
        ensures
            bytes@ == self@,
    {
        &self.0
    }

    /// The bit-wise exclusive or of two identifiers.
    pub fn xor(&self, other: &NodeId) -> (x: NodeId)
        ensures
            x@ == xor_bytes(self@, other@),
    {
        let mut bytes = [0u8; 64];
        let mut i: usize = 0;
        while i < 64
            invariant
                i <= 64,
                forall|j: int| 0 <= j < i ==> bytes@[j] == self@[j] ^ other@[j],
            decreases 64 - i,
        {
            bytes[i] = self.0[i] ^ other.0[i];
            i += 1;
        }
        assert(bytes@ =~= xor_bytes(self@, other@));
        NodeId(bytes)
    }
}

/// An identifier has `ID_BYTES` bytes, which make up the `B` bits of the
/// identifier space.
pub proof fn lemma_id_width(id: NodeId)
    ensures
        id@.len() == ID_BYTES,
        8 * id@.len() == B,
{
}

} // verus!
