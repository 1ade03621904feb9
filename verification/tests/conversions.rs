use witnet_core::chain::InvVector;
use witnet_core::decode::{
    create_address, create_get_blocks_message, create_get_data_message, create_get_peers_message,
    create_hash, create_inv_message, create_inv_vector, create_ipv4_address, create_ipv6_address,
    create_peers_message, create_ping_message, create_pong_message, create_verack_message,
    create_version_message, EmptyCommandArgs, GetBlocksCommandArgs, GetDataWitnetArgs,
    HeartbeatCommandsArgs, InvWitnetArgs, PeersWitnetArgs, VersionCommandArgs,
};
use witnet_core::protocol;
use witnet_core::types::{GetBlocks, GetData, GetPeers, Inv, Peers, Ping, Pong, Verack, Version};
use witnet_core::chain::CheckpointBeacon;
use witnet_core::{Address, Command, IpAddress, Message};

fn table_hash(n: u8) -> protocol::Hash {
    protocol::Hash { type_: protocol::HASH_TYPE_SHA256, bytes: (0..32u8).map(|i| i.wrapping_add(n)).collect() }
}

fn hash(n: u8) -> witnet_core::chain::Hash {
    let mut a = [0u8; 32];
    for (i, b) in a.iter_mut().enumerate() {
        *b = (i as u8).wrapping_add(n);
    }
    witnet_core::chain::Hash::SHA256(a)
}

#[test]
fn ip_addresses() {
    assert_eq!(create_ipv4_address(0x0a00_0001, 80), Address { ip: IpAddress::Ipv4 { ip: 0x0a00_0001 }, port: 80 });
    assert_eq!(
        create_ipv6_address(1, 2, 3, 4, 443),
        Address { ip: IpAddress::Ipv6 { ip0: 1, ip1: 2, ip2: 3, ip3: 4 }, port: 443 }
    );
}

#[test]
fn address_from_table() {
    let v4 = protocol::Address {
        ip_type: protocol::IP_ADDRESS_IPV4,
        ip_as_ipv4: Some(protocol::Ipv4 { ip: 7 }),
        ip_as_ipv6: None,
        port: 9,
    };
    assert_eq!(create_address(v4), Some(Address { ip: IpAddress::Ipv4 { ip: 7 }, port: 9 }));
    let v6 = protocol::Address {
        ip_type: protocol::IP_ADDRESS_IPV6,
        ip_as_ipv4: None,
        ip_as_ipv6: Some(protocol::Ipv6 { ip0: 5, ip1: 6, ip2: 7, ip3: 8 }),
        port: 10,
    };
    assert_eq!(
        create_address(v6),
        Some(Address { ip: IpAddress::Ipv6 { ip0: 5, ip1: 6, ip2: 7, ip3: 8 }, port: 10 })
    );
}

#[test]
fn address_from_table_without_ip() {
    let none = protocol::Address { ip_type: protocol::IP_ADDRESS_NONE, ip_as_ipv4: None, ip_as_ipv6: None, port: 1 };
    assert_eq!(create_address(none), None);
    let missing_v4 = protocol::Address { ip_type: protocol::IP_ADDRESS_IPV4, ip_as_ipv4: None, ip_as_ipv6: None, port: 1 };
    assert_eq!(create_address(missing_v4), None);
    let missing_v6 = protocol::Address { ip_type: protocol::IP_ADDRESS_IPV6, ip_as_ipv4: None, ip_as_ipv6: None, port: 1 };
    assert_eq!(create_address(missing_v6), None);
}

#[test]
fn hash_from_table() {
    assert_eq!(create_hash(&table_hash(4)), hash(4));
}

#[test]
fn inv_vector_from_table() {
    let kinds = [
        (protocol::INV_TYPE_ERROR, InvVector::Error(hash(1))),
        (protocol::INV_TYPE_TX, InvVector::Tx(hash(1))),
        (protocol::INV_TYPE_BLOCK, InvVector::Block(hash(1))),
        (protocol::INV_TYPE_DATA_REQUEST, InvVector::DataRequest(hash(1))),
        (protocol::INV_TYPE_DATA_RESULT, InvVector::DataResult(hash(1))),
    ];
    for (type_, expected) in kinds.iter() {
        let entry = protocol::InvVector { type_: *type_, hash: table_hash(1) };
        assert_eq!(create_inv_vector(&entry), *expected);
    }
}

#[test]
fn simple_messages() {
    assert_eq!(
        create_ping_message(HeartbeatCommandsArgs { magic: 1, nonce: 2 }),
        Message { kind: Command::Ping(Ping { nonce: 2 }), magic: 1 }
    );
    assert_eq!(
        create_pong_message(HeartbeatCommandsArgs { magic: 3, nonce: 4 }),
        Message { kind: Command::Pong(Pong { nonce: 4 }), magic: 3 }
    );
    assert_eq!(
        create_verack_message(EmptyCommandArgs { magic: 5 }),
        Message { kind: Command::Verack(Verack), magic: 5 }
    );
    assert_eq!(
        create_get_peers_message(EmptyCommandArgs { magic: 6 }),
        Message { kind: Command::GetPeers(GetPeers), magic: 6 }
    );
    let beacon = CheckpointBeacon { checkpoint: 8, hash_prev_block: hash(8) };
    assert_eq!(
        create_get_blocks_message(GetBlocksCommandArgs { highest_block_checkpoint: beacon, magic: 7 }),
        Message { kind: Command::GetBlocks(GetBlocks { highest_block_checkpoint: beacon }), magic: 7 }
    );
}

#[test]
fn version_message() {
    let sender = Address { ip: IpAddress::Ipv4 { ip: 1 }, port: 2 };
    let receiver = Address { ip: IpAddress::Ipv6 { ip0: 3, ip1: 4, ip2: 5, ip3: 6 }, port: 7 };
    let m = create_version_message(VersionCommandArgs {
        magic: 9,
        capabilities: 10,
        genesis: 11,
        last_epoch: 12,
        nonce: 13,
        receiver_address: &receiver,
        sender_address: &sender,
        timestamp: -14,
        user_agent: "agent/1.0",
        version: 15,
    });
    assert_eq!(
        m,
        Message {
            kind: Command::Version(Version {
                version: 15,
                timestamp: -14,
                capabilities: 10,
                sender_address: sender,
                receiver_address: receiver,
                user_agent: "agent/1.0".to_string(),
                last_epoch: 12,
                genesis: 11,
                nonce: 13,
            }),
            magic: 9,
        }
    );
}

#[test]
fn peers_message_keeps_only_known_addresses() {
    let known = protocol::Address {
        ip_type: protocol::IP_ADDRESS_IPV4,
        ip_as_ipv4: Some(protocol::Ipv4 { ip: 1 }),
        ip_as_ipv6: None,
        port: 2,
    };
    let unknown = protocol::Address { ip_type: protocol::IP_ADDRESS_NONE, ip_as_ipv4: None, ip_as_ipv6: None, port: 3 };
    let m = create_peers_message(PeersWitnetArgs {
        magic: 4,
        peers: protocol::Peers { peers: Some(vec![unknown, known, unknown]) },
    });
    assert_eq!(
        m,
        Some(Message {
            kind: Command::Peers(Peers { peers: vec![Address { ip: IpAddress::Ipv4 { ip: 1 }, port: 2 }] }),
            magic: 4,
        })
    );
}

#[test]
fn peers_message_without_vector() {
    let m = create_peers_message(PeersWitnetArgs { magic: 4, peers: protocol::Peers { peers: None } });
    assert_eq!(m, None);
}

#[test]
fn inventory_messages() {
    let entries = || {
        vec![
            protocol::InvVector { type_: protocol::INV_TYPE_TX, hash: table_hash(2) },
            protocol::InvVector { type_: protocol::INV_TYPE_BLOCK, hash: table_hash(3) },
        ]
    };
    let expected = vec![InvVector::Tx(hash(2)), InvVector::Block(hash(3))];
    let inv = create_inv_message(InvWitnetArgs {
        magic: 1,
        inventory: protocol::Inventory { inventory: entries() },
    });
    assert_eq!(inv, Message { kind: Command::Inv(Inv { inventory: expected.clone() }), magic: 1 });
    let get_data = create_get_data_message(GetDataWitnetArgs {
        magic: 2,
        inventory: protocol::Inventory { inventory: entries() },
    });
    assert_eq!(get_data, Message { kind: Command::GetData(GetData { inventory: expected }), magic: 2 });
}
