use witnet_core::chain::{
    Block, BlockHeader, BlockHeaderWithProof, CheckpointBeacon, InvVector, LeadershipProof,
    Secp256k1Signature, Signature, Transaction,
};
use witnet_core::types::{GetBlocks, GetData, GetPeers, Inv, Peers, Ping, Pong, Verack, Version};
use witnet_core::{Address, Command, IpAddress, Message, TryFrom};

fn sha(n: u8) -> witnet_core::chain::Hash {
    let mut a = [0u8; 32];
    for (i, b) in a.iter_mut().enumerate() {
        *b = n.wrapping_add(i as u8);
    }
    witnet_core::chain::Hash::SHA256(a)
}

fn v4(ip: u32, port: u16) -> Address {
    Address { ip: IpAddress::Ipv4 { ip }, port }
}

fn v6(ip0: u32, ip1: u32, ip2: u32, ip3: u32, port: u16) -> Address {
    Address { ip: IpAddress::Ipv6 { ip0, ip1, ip2, ip3 }, port }
}

fn roundtrip(m: Message) {
    let bytes: Vec<u8> = m.clone().into();
    assert_eq!(<Message as TryFrom<Vec<u8>>>::try_from(bytes), Ok(m));
}

#[test]
fn ping_roundtrip() {
    roundtrip(Message { kind: Command::Ping(Ping { nonce: 0x0123_4567_89ab_cdef }), magic: 0xbeef });
    roundtrip(Message { kind: Command::Ping(Ping { nonce: 0 }), magic: 0 });
}

#[test]
fn pong_roundtrip() {
    roundtrip(Message { kind: Command::Pong(Pong { nonce: u64::MAX }), magic: 1 });
}

#[test]
fn get_peers_and_verack_roundtrip() {
    roundtrip(Message { kind: Command::GetPeers(GetPeers), magic: 7 });
    roundtrip(Message { kind: Command::Verack(Verack), magic: 65535 });
}

#[test]
fn get_blocks_roundtrip() {
    roundtrip(Message {
        kind: Command::GetBlocks(GetBlocks {
            highest_block_checkpoint: CheckpointBeacon { checkpoint: 22, hash_prev_block: sha(3) },
        }),
        magic: 3,
    });
}

#[test]
fn peers_roundtrip() {
    roundtrip(Message {
        kind: Command::Peers(Peers {
            peers: vec![v4(0x7f00_0001, 21337), v6(1, 2, 3, 4, 8080), v4(0, 0)],
        }),
        magic: 9,
    });
    roundtrip(Message { kind: Command::Peers(Peers { peers: vec![] }), magic: 9 });
}

#[test]
fn version_roundtrip() {
    roundtrip(Message {
        kind: Command::Version(Version {
            version: 2,
            timestamp: -123456789,
            capabilities: 4,
            sender_address: v4(0xc0a8_0001, 1000),
            receiver_address: v6(0xfe80, 0, 0, 1, 21338),
            user_agent: "witnet-rust ünïcode".to_string(),
            last_epoch: 8,
            genesis: 1234,
            nonce: 99,
        }),
        magic: 12,
    });
}

#[test]
fn block_roundtrip() {
    let header = BlockHeaderWithProof {
        block_header: BlockHeader {
            version: 1,
            beacon: CheckpointBeacon { checkpoint: 5, hash_prev_block: sha(10) },
            hash_merkle_root: sha(50),
        },
        proof: LeadershipProof {
            block_sig: Some(Signature::Secp256k1(Secp256k1Signature { r: [1; 32], s: [2; 32], v: 3 })),
            influence: 77,
        },
    };
    roundtrip(Message {
        kind: Command::Block(Block { header, txn_count: 3, txns: vec![Transaction, Transaction, Transaction] }),
        magic: 1,
    });
    let mut unsigned = header;
    unsigned.proof.block_sig = None;
    roundtrip(Message {
        kind: Command::Block(Block { header: unsigned, txn_count: 0, txns: vec![] }),
        magic: 2,
    });
}

#[test]
fn inv_and_get_data_roundtrip() {
    let inventory = vec![
        InvVector::Error(sha(1)),
        InvVector::Tx(sha(2)),
        InvVector::Block(sha(3)),
        InvVector::DataRequest(sha(4)),
        InvVector::DataResult(sha(5)),
    ];
    roundtrip(Message { kind: Command::Inv(Inv { inventory: inventory.clone() }), magic: 4 });
    roundtrip(Message { kind: Command::GetData(GetData { inventory }), magic: 5 });
    roundtrip(Message { kind: Command::Inv(Inv { inventory: vec![] }), magic: 6 });
}
