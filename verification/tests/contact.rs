use blake2::Digest;
use kademlia_contact::address::canonical_block;
use kademlia_contact::{Contact, IpAddress, NodeId, SocketAddress, B};
use std::mem::size_of;

fn id_with(index: usize, byte: u8) -> NodeId {
    let mut bytes = [0u8; 64];
    bytes[index] = byte;
    NodeId::new(bytes)
}

fn blake2b(block: &[u8]) -> [u8; 64] {
    let mut out = [0u8; 64];
    out.copy_from_slice(blake2::Blake2b512::digest(block).as_slice());
    out
}

#[test]
fn test_log2_distance_is_0_if_two_host_are_the_same() {
    let c1 = Contact::new(IpAddress::V4([127, 0, 0, 1]), 8000);
    let c2 = Contact::new(IpAddress::V4([127, 0, 0, 1]), 8000);

    assert_eq!(0, c1.log2_distance(&c2));
}

#[test]
fn test_log2_distance_is_1_if_lsb_is_different() {
    let c1 = Contact::from_hash(NodeId::new([0u8; 64]));
    let c2 = Contact::from_hash(id_with(63, 0x01));

    assert_eq!(1, c1.log2_distance(&c2));
}

#[test]
fn test_log2_distance_is_node_id_size_if_msb_is_different() {
    let c1 = Contact::from_hash(NodeId::new([0u8; 64]));
    let c2 = Contact::from_hash(id_with(0, 0x80));

    assert_eq!(B, c1.log2_distance(&c2));
}

#[test]
fn test_size_of_address_is_b() {
    assert_eq!(B, size_of::<NodeId>() * 8);
}

#[test]
fn width_of_the_identifier_space_is_512() {
    assert_eq!(B, 512);
    assert_eq!(NodeId::new([7u8; 64]).as_bytes().len() * 8, B);
}

#[test]
fn distance_to_self_is_zero() {
    let ids = [NodeId::new([0u8; 64]), NodeId::new([0xffu8; 64]), id_with(31, 0x5a)];
    for id in ids.iter() {
        let c = Contact::from_hash(*id);
        assert_eq!(c.log2_distance(&c), 0);
        assert_eq!(c.log2_distance(&Contact::from_hash(*id)), 0);
    }
}

#[test]
fn distance_is_the_position_of_the_highest_differing_bit() {
    let zero = Contact::from_hash(NodeId::new([0u8; 64]));
    for index in 0..64usize {
        for k in 0..8usize {
            let other = Contact::from_hash(id_with(index, 0x80u8 >> k));
            let expected = B - (8 * index + k);
            assert_eq!(zero.log2_distance(&other), expected);
            assert_eq!(other.log2_distance(&zero), expected);
        }
    }
}

#[test]
fn bits_below_the_highest_differing_bit_do_not_count() {
    let zero = Contact::from_hash(NodeId::new([0u8; 64]));
    let mut bytes = [0xffu8; 64];
    bytes[0] = 0;
    bytes[1] = 0x1f;
    let other = Contact::from_hash(NodeId::new(bytes));
    assert_eq!(zero.log2_distance(&other), 512 - 11);

    let a = Contact::from_hash(NodeId::new([0xaau8; 64]));
    let b = Contact::from_hash(NodeId::new([0xabu8; 64]));
    assert_eq!(a.log2_distance(&b), 512 - 7);
}

#[test]
fn distance_is_symmetric() {
    let a = Contact::new(IpAddress::V4([10, 0, 0, 1]), 3485);
    let b = Contact::new(IpAddress::V4([10, 0, 0, 2]), 3485);
    let c = Contact::from_hash(id_with(40, 0x10));
    assert_eq!(a.log2_distance(&b), b.log2_distance(&a));
    assert_eq!(a.log2_distance(&c), c.log2_distance(&a));
    assert_eq!(b.log2_distance(&c), c.log2_distance(&b));
}

#[test]
fn distance_obeys_the_strong_triangle_inequality() {
    let contacts = [
        Contact::new(IpAddress::V4([10, 0, 0, 1]), 3485),
        Contact::new(IpAddress::V4([10, 0, 0, 2]), 3485),
        Contact::new(IpAddress::V6([0, 0, 0, 0, 0, 0, 0, 0, 0, 0, 0, 0, 0, 0, 0, 1]), 80),
        Contact::from_hash(NodeId::new([0u8; 64])),
        Contact::from_hash(id_with(63, 0x01)),
        Contact::from_hash(id_with(0, 0x80)),
        Contact::from_hash(id_with(17, 0x04)),
    ];
    for a in contacts.iter() {
        for b in contacts.iter() {
            for c in contacts.iter() {
                let ab = a.log2_distance(b);
                let ac = a.log2_distance(c);
                let cb = c.log2_distance(b);
                let bc = b.log2_distance(c);
                assert!(ab <= ac.max(cb));
                assert!(ab <= ac.max(bc));
            }
        }
    }
}

#[test]
fn distance_is_in_range() {
    let a = Contact::from_hash(NodeId::new([0u8; 64]));
    let b = Contact::from_hash(NodeId::new([0xffu8; 64]));
    assert_eq!(a.log2_distance(&b), B);
    let c = Contact::new(IpAddress::V4([192, 168, 0, 1]), 1);
    assert!(a.log2_distance(&c) <= B);
    assert!(b.log2_distance(&c) <= B);
}

#[test]
fn xor_is_bytewise() {
    let a = NodeId::new([0xf0u8; 64]);
    let b = id_with(3, 0x3c);
    let x = a.xor(&b);
    for i in 0..64usize {
        let expected = if i == 3 { 0xf0u8 ^ 0x3c } else { 0xf0u8 };
        assert_eq!(x.as_bytes()[i], expected);
    }
    assert_eq!(a.xor(&a), NodeId::new([0u8; 64]));
}

#[test]
fn node_ids_compare_bytewise() {
    assert_eq!(id_with(5, 1), id_with(5, 1));
    assert_ne!(id_with(5, 1), id_with(6, 1));
    assert!(id_with(6, 1) < id_with(5, 1));
    assert!(NodeId::new([0u8; 64]) < id_with(63, 1));
}

#[test]
fn canonical_block_of_an_ipv4_address() {
    let block = canonical_block(IpAddress::V4([127, 0, 0, 1]), 8000);
    assert_eq!(block, [0, 0, 0, 0, 0, 0, 0, 0, 0, 0, 0xff, 0xff, 127, 0, 0, 1, 0x1f, 0x40]);
}

#[test]
fn canonical_block_of_an_ipv6_address() {
    let octets = [0x20, 0x01, 0x0d, 0xb8, 0, 0, 0, 0, 0, 0, 0, 0, 0, 0, 0, 0x01];
    let block = canonical_block(IpAddress::V6(octets), 0xabcd);
    assert_eq!(&block[..16], &octets[..]);
    assert_eq!(block[16], 0xab);
    assert_eq!(block[17], 0xcd);
}

#[test]
fn canonical_block_of_the_port_bounds() {
    let low = canonical_block(IpAddress::V4([1, 2, 3, 4]), 0);
    assert_eq!((low[16], low[17]), (0, 0));
    let high = canonical_block(IpAddress::V4([1, 2, 3, 4]), 65535);
    assert_eq!((high[16], high[17]), (0xff, 0xff));
    let mixed = canonical_block(IpAddress::V4([1, 2, 3, 4]), 256);
    assert_eq!((mixed[16], mixed[17]), (1, 0));
}

#[test]
fn ipv4_address_is_mapped_into_ipv6() {
    assert_eq!(
        IpAddress::V4([192, 168, 1, 20]).to_ipv6_octets(),
        [0, 0, 0, 0, 0, 0, 0, 0, 0, 0, 0xff, 0xff, 192, 168, 1, 20]
    );
    let v6 = [1u8, 2, 3, 4, 5, 6, 7, 8, 9, 10, 11, 12, 13, 14, 15, 16];
    assert_eq!(IpAddress::V6(v6).to_ipv6_octets(), v6);
}

#[test]
fn identifier_of_an_address_is_the_digest_of_its_block() {
    let contact = Contact::new(IpAddress::V4([127, 0, 0, 1]), 8000);
    let block = [0, 0, 0, 0, 0, 0, 0, 0, 0, 0, 0xff, 0xff, 127, 0, 0, 1, 0x1f, 0x40];
    assert_eq!(contact.id().as_bytes(), &blake2b(&block));
    assert_eq!(Contact::hash(IpAddress::V4([127, 0, 0, 1]), 8000), contact.id());
    assert_ne!(&contact.id().as_bytes()[..18], &block[..]);
}

#[test]
fn contact_of_an_address_carries_the_address() {
    let ip = IpAddress::V6([0xfe, 0x80, 0, 0, 0, 0, 0, 0, 0, 0, 0, 0, 0, 0, 0, 9]);
    let contact = Contact::new(ip, 3485);
    assert_eq!(contact.addr(), Some(SocketAddress::new(ip, 3485)));
    assert_eq!(contact.addr(), Some(SocketAddress { ip, port: 3485 }));
}

#[test]
fn same_address_gives_the_same_identifier() {
    let ip = IpAddress::V4([8, 8, 8, 8]);
    assert_eq!(Contact::hash(ip, 53), Contact::hash(ip, 53));
    assert_eq!(Contact::new(ip, 53).id(), Contact::new(ip, 53).id());
}

#[test]
fn different_addresses_give_different_identifiers() {
    let a = Contact::new(IpAddress::V4([127, 0, 0, 1]), 8000);
    let b = Contact::new(IpAddress::V4([127, 0, 0, 1]), 8001);
    let c = Contact::new(IpAddress::V4([127, 0, 0, 2]), 8000);
    assert_ne!(a.id(), b.id());
    assert_ne!(a.id(), c.id());
    assert_ne!(b.id(), c.id());
    assert!(a.log2_distance(&b) > 0);
}

#[test]
fn mapped_ipv6_address_gives_the_identifier_of_the_ipv4_address() {
    let v4 = Contact::new(IpAddress::V4([10, 1, 2, 3]), 7);
    let v6 = Contact::new(IpAddress::V6([0, 0, 0, 0, 0, 0, 0, 0, 0, 0, 0xff, 0xff, 10, 1, 2, 3]), 7);
    assert_eq!(v4.id(), v6.id());
    assert_ne!(v4.addr(), v6.addr());
}

#[test]
fn contact_from_a_random_block_hashes_the_block() {
    let block = [0x42u8; 16];
    let contact = Contact::from_random_block(block);
    assert_eq!(contact.id().as_bytes(), &blake2b(&block));
    assert_eq!(contact.addr(), None);
    assert_eq!(Contact::from_random_block([0u8; 16]).id().as_bytes(), &blake2b(&[0u8; 16]));
}

#[test]
fn random_contact_has_no_address() {
    let a = Contact::random();
    let b = Contact::random();
    assert_eq!(a.addr(), None);
    assert_eq!(b.addr(), None);
    assert!(a.log2_distance(&b) <= B);
    assert_eq!(a.log2_distance(&a), 0);
}

#[test]
fn contact_from_hash_keeps_the_identifier() {
    let id = id_with(12, 0x99);
    let contact = Contact::from_hash(id);
    assert_eq!(contact.id(), id);
    assert_eq!(contact.addr(), None);
}
