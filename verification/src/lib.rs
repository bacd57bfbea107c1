//! Peer identity and distance metric of a Kademlia-style distributed hash table.
//!
//! A peer is located by a 512-bit [`NodeId`]. The identifier of a peer is the
//! BLAKE2b-512 digest either of a block of random bytes or of the canonical
//! encoding of the peer's network address. The distance between two peers is
//! the bit length of the XOR of their identifiers, which a routing table uses
//! as the index of a bucket.

pub mod address;
pub mod contact;
pub mod digest;
pub mod distance;
pub mod entropy;
pub mod node_id;
pub mod uint;

pub use address::{IpAddress, SocketAddress};
pub use contact::Contact;
pub use node_id::{NodeId, B};
