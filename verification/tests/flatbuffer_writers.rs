use witnet_core::chain::{Secp256k1Signature, Signature};
use witnet_core::protocol::{read_message, Command as Table, SIGNATURE_NONE, SIGNATURE_SECP256K1};
use flatbuffers::FlatBufferBuilder;
use witnet_core::chain::{
    BlockHeader, BlockHeaderWithProof, CheckpointBeacon, InvVector, LeadershipProof,
    Transaction,
};
use witnet_core::decode::{EmptyCommandArgs, GetBlocksCommandArgs, HeartbeatCommandsArgs, VersionCommandArgs};
use witnet_core::encode::{
    create_block_flatbuffer, create_get_blocks_flatbuffer, create_get_data_flatbuffer,
    create_get_peers_flatbuffer, create_inv_flatbuffer, create_peers_flatbuffer,
    create_ping_flatbuffer, create_pong_flatbuffer, create_verack_flatbuffer,
    create_version_flatbuffer, BlockCommandArgs, InventoryArgs, PeersFlatbufferArgs, FTB_SIZE,
};
use witnet_core::types::{
    GetBlocks, GetData, GetPeers, Inv, Peers, Ping, Pong, Verack, Version,
};
use witnet_core::chain::Block;
use witnet_core::{Address, Command, IpAddress, Message, TryFrom};

fn decode(bytes: Vec<u8>) -> Result<Message, &'static str> {
    <Message as TryFrom<Vec<u8>>>::try_from(bytes)
}

fn builder() -> FlatBufferBuilder<'static> {
    witnet_core::encode::message_builder()
}

#[test]
fn writers_work_on_any_fresh_builder() {
    let bytes = create_ping_flatbuffer(
        &mut FlatBufferBuilder::new_with_capacity(FTB_SIZE),
        HeartbeatCommandsArgs { magic: 1, nonce: 2 },
    );
    assert_eq!(decode(bytes), Ok(Message { kind: Command::Ping(Ping { nonce: 2 }), magic: 1 }));
}

#[test]
fn heartbeat_flatbuffers() {
    let ping = create_ping_flatbuffer(&mut builder(), HeartbeatCommandsArgs { magic: 2, nonce: 11 });
    assert_eq!(decode(ping), Ok(Message { kind: Command::Ping(Ping { nonce: 11 }), magic: 2 }));
    let pong = create_pong_flatbuffer(&mut builder(), HeartbeatCommandsArgs { magic: 2, nonce: 12 });
    assert_eq!(decode(pong), Ok(Message { kind: Command::Pong(Pong { nonce: 12 }), magic: 2 }));
}

#[test]
fn empty_command_flatbuffers() {
    let verack = create_verack_flatbuffer(&mut builder(), EmptyCommandArgs { magic: 4 });
    assert_eq!(decode(verack), Ok(Message { kind: Command::Verack(Verack), magic: 4 }));
    let get_peers = create_get_peers_flatbuffer(&mut builder(), EmptyCommandArgs { magic: 5 });
    assert_eq!(decode(get_peers), Ok(Message { kind: Command::GetPeers(GetPeers), magic: 5 }));
}

#[test]
fn get_blocks_flatbuffer() {
    let beacon = CheckpointBeacon { checkpoint: 3, hash_prev_block: witnet_core::chain::Hash::SHA256([9; 32]) };
    let bytes = create_get_blocks_flatbuffer(
        &mut builder(),
        GetBlocksCommandArgs { highest_block_checkpoint: beacon, magic: 6 },
    );
    assert_eq!(
        decode(bytes),
        Ok(Message { kind: Command::GetBlocks(GetBlocks { highest_block_checkpoint: beacon }), magic: 6 })
    );
}

#[test]
fn peers_flatbuffer() {
    let peers = vec![
        Address { ip: IpAddress::Ipv4 { ip: 1 }, port: 2 },
        Address { ip: IpAddress::Ipv6 { ip0: 3, ip1: 4, ip2: 5, ip3: 6 }, port: 7 },
    ];
    let bytes = create_peers_flatbuffer(&mut builder(), PeersFlatbufferArgs { magic: 8, peers: &peers });
    assert_eq!(decode(bytes), Ok(Message { kind: Command::Peers(Peers { peers }), magic: 8 }));
}

#[test]
fn version_flatbuffer() {
    let sender = Address { ip: IpAddress::Ipv4 { ip: 10 }, port: 11 };
    let receiver = Address { ip: IpAddress::Ipv4 { ip: 12 }, port: 13 };
    let bytes = create_version_flatbuffer(
        &mut builder(),
        VersionCommandArgs {
            magic: 1,
            capabilities: 2,
            genesis: 3,
            last_epoch: 4,
            nonce: 5,
            receiver_address: &receiver,
            sender_address: &sender,
            timestamp: 6,
            user_agent: "",
            version: 7,
        },
    );
    assert_eq!(
        decode(bytes),
        Ok(Message {
            kind: Command::Version(Version {
                version: 7,
                timestamp: 6,
                capabilities: 2,
                sender_address: sender,
                receiver_address: receiver,
                user_agent: String::new(),
                last_epoch: 4,
                genesis: 3,
                nonce: 5,
            }),
            magic: 1,
        })
    );
}

#[test]
fn block_flatbuffer() {
    let header = BlockHeaderWithProof {
        block_header: BlockHeader {
            version: 9,
            beacon: CheckpointBeacon { checkpoint: 0, hash_prev_block: witnet_core::chain::Hash::SHA256([0; 32]) },
            hash_merkle_root: witnet_core::chain::Hash::SHA256([255; 32]),
        },
        proof: LeadershipProof { block_sig: None, influence: 0 },
    };
    let txns = vec![Transaction];
    let bytes = create_block_flatbuffer(
        &mut builder(),
        BlockCommandArgs { magic: 3, header, txn_count: 7, txns: &txns },
    );
    assert_eq!(
        decode(bytes),
        Ok(Message { kind: Command::Block(Block { header, txn_count: 7, txns }), magic: 3 })
    );
}

#[test]
fn inventory_flatbuffers() {
    let inventory = vec![InvVector::DataResult(witnet_core::chain::Hash::SHA256([7; 32])), InvVector::Error(witnet_core::chain::Hash::SHA256([8; 32]))];
    let inv = create_inv_flatbuffer(&mut builder(), InventoryArgs { magic: 1, inventory: &inventory });
    assert_eq!(decode(inv), Ok(Message { kind: Command::Inv(Inv { inventory: inventory.clone() }), magic: 1 }));
    let get_data = create_get_data_flatbuffer(&mut builder(), InventoryArgs { magic: 2, inventory: &inventory });
    assert_eq!(decode(get_data), Ok(Message { kind: Command::GetData(GetData { inventory }), magic: 2 }));
}

#[test]
fn encoded_messages_stay_within_their_bound() {
    // A ping takes at most 28 bytes of command tables and 39 for the root.
    let ping = Message { kind: Command::Ping(Ping { nonce: u64::MAX }), magic: u16::MAX };
    let bytes: Vec<u8> = ping.into();
    assert!(bytes.len() <= 28 + 39);
    // A block with n transactions: at most 15 n + 393 bytes of command tables.
    let header = BlockHeaderWithProof {
        block_header: BlockHeader {
            version: 1,
            beacon: CheckpointBeacon { checkpoint: 2, hash_prev_block: witnet_core::chain::Hash::SHA256([4; 32]) },
            hash_merkle_root: witnet_core::chain::Hash::SHA256([5; 32]),
        },
        proof: LeadershipProof { block_sig: None, influence: 6 },
    };
    let txns = vec![Transaction; 10];
    let block = Message { kind: Command::Block(Block { header, txn_count: 10, txns }), magic: 9 };
    let bytes: Vec<u8> = block.into();
    assert!(bytes.len() <= 15 * 10 + 393 + 39);
}

#[test]
fn large_messages_grow_past_the_initial_capacity() {
    let peers: Vec<Address> = (0..100u32).map(|i| Address { ip: IpAddress::Ipv4 { ip: i }, port: i as u16 }).collect();
    let m = Message { kind: Command::Peers(Peers { peers }), magic: 1 };
    let bytes: Vec<u8> = m.clone().into();
    assert!(bytes.len() > FTB_SIZE);
    assert_eq!(decode(bytes), Ok(m));
}

#[test]
fn block_signature_tables_hold_exact_bytes() {
    let sig = Secp256k1Signature { r: [1; 32], s: [2; 32], v: 3 };
    let mut header = BlockHeaderWithProof {
        block_header: BlockHeader {
            version: 1,
            beacon: CheckpointBeacon { checkpoint: 2, hash_prev_block: witnet_core::chain::Hash::SHA256([4; 32]) },
            hash_merkle_root: witnet_core::chain::Hash::SHA256([5; 32]),
        },
        proof: LeadershipProof { block_sig: Some(Signature::Secp256k1(sig)), influence: 6 },
    };
    let txns = vec![Transaction];
    let bytes = create_block_flatbuffer(&mut builder(), BlockCommandArgs { magic: 9, header, txn_count: 1, txns: &txns });
    match read_message(&bytes).unwrap().command {
        Table::Block(Some(b)) => {
            assert_eq!(b.header.proof.block_sig_type, SIGNATURE_SECP256K1);
            let s = b.header.proof.block_sig_as_secp256k1.unwrap();
            assert_eq!(s.r, vec![1u8; 32]);
            let mut expected_s = vec![2u8; 32];
            expected_s.push(3);
            assert_eq!(s.s, expected_s);
            assert_eq!(b.txns_len, 1);
        },
        _ => panic!("not a block"),
    }
    header.proof.block_sig = None;
    let bytes = create_block_flatbuffer(&mut builder(), BlockCommandArgs { magic: 9, header, txn_count: 1, txns: &txns });
    match read_message(&bytes).unwrap().command {
        Table::Block(Some(b)) => {
            assert_eq!(b.header.proof.block_sig_type, SIGNATURE_NONE);
            assert!(b.header.proof.block_sig_as_secp256k1.is_none());
        },
        _ => panic!("not a block"),
    }
}

#[test]
fn peers_vector_holds_every_peer() {
    let peers = vec![
        Address { ip: IpAddress::Ipv4 { ip: 1 }, port: 2 },
        Address { ip: IpAddress::Ipv6 { ip0: 3, ip1: 4, ip2: 5, ip3: 6 }, port: 7 },
    ];
    let bytes = create_peers_flatbuffer(&mut builder(), PeersFlatbufferArgs { magic: 8, peers: &peers });
    match read_message(&bytes).unwrap().command {
        Table::Peers(Some(p)) => {
            let v = p.peers.unwrap();
            assert_eq!(v.len(), 2);
            assert_eq!(witnet_core::decode::create_address(v[0]), Some(peers[0]));
            assert_eq!(witnet_core::decode::create_address(v[1]), Some(peers[1]));
        },
        _ => panic!("not peers"),
    }
}
