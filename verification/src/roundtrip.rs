//! What a message reads back as once it has been written: the tables that
//! stand for a message, and the proof that decoding what was encoded gives
//! the message back.
use vstd::prelude::*;
use vstd::utf8::{encode_utf8_decode_utf8, encode_utf8_valid_utf8};

use crate::builder::{all_placed, fb_readable, no_fields, placed, placed_slot, valid_slot, FbField, FbObject};
use crate::chain;
use crate::chain::lemma_array32;
use crate::decode::{
    block_convertible, decodable, hash_convertible, inv_vector_convertible,
    spec_collect_addresses, spec_create_address, spec_create_block, spec_create_block_sig,
    spec_create_hash, spec_create_inv_vector, spec_create_inventory, spec_create_signature,
    spec_create_version, spec_decode, spec_message_from_table, table_convertible,
};
use crate::encode::{
    address_at, beacon_at, fields_of, has_i64, has_ref, has_u16, has_u32, has_u64, has_u8,
    has_refs, hash_at, hash_bytes, peers_at, refs_of, table_at, target, version_at,
    block_at, block_layout, command_at, command_tag, empty_at, empty_table_at, get_blocks_at, header_at, heartbeat_at, inv_hash, inv_type,
    inv_vector_at, inventory_at, message_at, proof_at, signature_at,
};
use crate::protocol;
use crate::protocol::{
    inv_vector_reader, spec_read_block, spec_read_command, spec_read_get_blocks,
    spec_read_header, spec_read_inv_vector, spec_read_inventory, spec_read_message,
    spec_read_ping, spec_read_pong, spec_read_proof, spec_read_signature, txn_reader,
    BLOCK_HEADER, BLOCK_TXNS, BLOCK_TXN_COUNT, COMMAND_GET_PEERS, COMMAND_VERACK,
    GET_BLOCKS_HIGHEST_BLOCK_CHECKPOINT, HEADER_BEACON, HEADER_HASH_MERKLE_ROOT, HEADER_PROOF,
    HEADER_VERSION, HEARTBEAT_NONCE, INVENTORY_INVENTORY, INV_VECTOR_HASH, INV_VECTOR_TYPE,
    MESSAGE_COMMAND, MESSAGE_COMMAND_TYPE, MESSAGE_MAGIC, PROOF_BLOCK_SIG, PROOF_BLOCK_SIG_TYPE,
    PROOF_INFLUENCE, SIGNATURE_NONE, SIGNATURE_R, SIGNATURE_S, SIGNATURE_SECP256K1,
    address_reader, spec_read_list, spec_read_peers, spec_read_vector, spec_read_version,
    PEERS_PEERS, VERSION_CAPABILITIES, VERSION_GENESIS, VERSION_LAST_EPOCH, VERSION_NONCE,
    VERSION_RECEIVER_ADDRESS, VERSION_SENDER_ADDRESS, VERSION_TIMESTAMP, VERSION_USER_AGENT,
    VERSION_VERSION,
    spec_read_address, spec_read_beacon, spec_read_hash, ADDRESS_IP, ADDRESS_IP_TYPE, ADDRESS_PORT,
    BEACON_CHECKPOINT, BEACON_HASH_PREV_BLOCK, HASH_BYTES, HASH_TYPE, HASH_TYPE_SHA256, IPV4_IP,
    IPV6_IP0, IPV6_IP1, IPV6_IP2, IPV6_IP3, IP_ADDRESS_IPV4, IP_ADDRESS_IPV6,
};
use crate::chain::{
    BlockHeader, BlockHeaderWithProof, BlockModel, CheckpointBeacon, InvVector, LeadershipProof,
    Secp256k1Signature, Signature,
};
use crate::types::{Address, CommandModel, IpAddress, MessageModel, VersionModel};
use crate::wire::{
    spec_field_offset,
    spec_string, spec_vec_elem, spec_vec_len,
    spec_bytes, spec_field_i64, spec_field_ref, spec_field_u16, spec_field_u32, spec_field_u64,
    spec_field_u8,
};

verus! {

// ---------------------------------------------------------------------------
// The tables that stand for each value
// ---------------------------------------------------------------------------

/// The `Hash` table that stands for a hash.
pub open spec fn hash_table(h: chain::Hash) -> protocol::HashModel {
    protocol::HashModel { type_: HASH_TYPE_SHA256, bytes: hash_bytes(h) }
}

/// The `CheckpointBeacon` table that stands for a beacon.
pub open spec fn beacon_table(c: CheckpointBeacon) -> protocol::CheckpointBeaconModel {
    protocol::CheckpointBeaconModel { checkpoint: c.checkpoint, hash_prev_block: hash_table(c.hash_prev_block) }
}

/// The `Address` table that stands for an address.
pub open spec fn address_table(a: Address) -> protocol::Address {
    match a.ip {
        IpAddress::Ipv4 { ip } => protocol::Address {
            ip_type: IP_ADDRESS_IPV4,
            ip_as_ipv4: Some(protocol::Ipv4 { ip }),
            ip_as_ipv6: None,
            port: a.port,
        },
        IpAddress::Ipv6 { ip0, ip1, ip2, ip3 } => protocol::Address {
            ip_type: IP_ADDRESS_IPV6,
            ip_as_ipv4: None,
            ip_as_ipv6: Some(protocol::Ipv6 { ip0, ip1, ip2, ip3 }),
            port: a.port,
        },
    }
}

/// The `Peers` table that stands for a list of addresses.
pub open spec fn peers_table(peers: Seq<Address>) -> protocol::PeersModel {
    protocol::PeersModel { peers: Some(peers.map_values(|a: Address| address_table(a))) }
}

/// The `Version` table that stands for a version handshake.
pub open spec fn version_table(v: VersionModel) -> protocol::VersionModel {
    protocol::VersionModel {
        version: v.version,
        timestamp: v.timestamp,
        capabilities: v.capabilities,
        sender_address: Some(address_table(v.sender_address)),
        receiver_address: Some(address_table(v.receiver_address)),
        user_agent: v.user_agent,
        last_epoch: v.last_epoch,
        genesis: v.genesis,
        nonce: v.nonce,
    }
}

/// The `Secp256k1Signature` table that stands for a signature: `r`, and
/// `s` followed by `v`.
pub open spec fn signature_table(sig: Secp256k1Signature) -> protocol::Secp256k1SignatureModel {
    protocol::Secp256k1SignatureModel { r: sig.r@, s: sig.s@.push(sig.v) }
}

/// The `LeadershipProof` table that stands for a leadership proof.
pub open spec fn proof_table(p: LeadershipProof) -> protocol::LeadershipProofModel {
    match p.block_sig {
        Some(Signature::Secp256k1(sig)) => protocol::LeadershipProofModel {
            block_sig_type: SIGNATURE_SECP256K1,
            block_sig_as_secp256k1: Some(signature_table(sig)),
            influence: p.influence,
        },
        None => protocol::LeadershipProofModel {
            block_sig_type: SIGNATURE_NONE,
            block_sig_as_secp256k1: None,
            influence: p.influence,
        },
    }
}

/// The `BlockHeader` table that stands for a block header.
pub open spec fn header_table(h: BlockHeaderWithProof) -> protocol::BlockHeaderModel {
    protocol::BlockHeaderModel {
        version: h.block_header.version,
        beacon: beacon_table(h.block_header.beacon),
        hash_merkle_root: hash_table(h.block_header.hash_merkle_root),
        proof: proof_table(h.proof),
    }
}

/// The `Block` table that stands for a block.
pub open spec fn block_table(b: BlockModel) -> protocol::BlockModel {
    protocol::BlockModel { header: header_table(b.header), txn_count: b.txn_count, txns_len: b.txns.len() }
}

/// The `InvVector` table that stands for an inventory entry.
pub open spec fn inv_vector_table(x: InvVector) -> protocol::InvVectorModel {
    protocol::InvVectorModel { type_: inv_type(x), hash: hash_table(inv_hash(x)) }
}

/// The `Inv` or `GetData` table that stands for a list of inventory entries.
pub open spec fn inventory_table(s: Seq<InvVector>) -> protocol::InventoryModel {
    protocol::InventoryModel { inventory: s.map_values(|x: InvVector| inv_vector_table(x)) }
}

/// The `command` union that stands for a command.
pub open spec fn command_table(k: CommandModel) -> protocol::CommandModel {
    match k {
        CommandModel::GetBlocks(c) => protocol::CommandModel::GetBlocks(
            Some(protocol::GetBlocksModel { highest_block_checkpoint: beacon_table(c) }),
        ),
        CommandModel::GetPeers => protocol::CommandModel::GetPeers,
        CommandModel::Peers(p) => protocol::CommandModel::Peers(Some(peers_table(p))),
        CommandModel::Ping(nonce) => protocol::CommandModel::Ping(Some(protocol::Ping { nonce })),
        CommandModel::Pong(nonce) => protocol::CommandModel::Pong(Some(protocol::Pong { nonce })),
        CommandModel::Verack => protocol::CommandModel::Verack,
        CommandModel::Version(v) => protocol::CommandModel::Version(Some(version_table(v))),
        CommandModel::Block(b) => protocol::CommandModel::Block(Some(block_table(b))),
        CommandModel::Inv(s) => protocol::CommandModel::Inv(Some(inventory_table(s))),
        CommandModel::GetData(s) => protocol::CommandModel::GetData(Some(inventory_table(s))),
    }
}

/// The root `Message` table that stands for a message.
pub open spec fn message_table(m: MessageModel) -> protocol::MessageModel {
    protocol::MessageModel { magic: m.magic, command: command_table(m.kind) }
}

// ---------------------------------------------------------------------------
// Reading fields back
// ---------------------------------------------------------------------------

proof fn lemma_slot(d: Seq<u8>, objs: Map<u32, FbObject>, locs: spec_fn(u32) -> int, t: u32, slot: int)
    requires
        all_placed(d, objs, locs),
        table_at(objs, t),
        valid_slot(slot),
    ensures
        placed_slot(d, locs(t), fields_of(objs, t), locs, slot),
{
    assert(placed(d, objs[t], locs, locs(t)));
}

proof fn lemma_u8(d: Seq<u8>, objs: Map<u32, FbObject>, locs: spec_fn(u32) -> int, t: u32, slot: int, x: u8)
    requires
        all_placed(d, objs, locs),
        table_at(objs, t),
        valid_slot(slot),
        has_u8(fields_of(objs, t), slot, x),
    ensures
        spec_field_u8(d, locs(t), slot) == Some(x),
{
    lemma_slot(d, objs, locs, t, slot);
}

proof fn lemma_u16(d: Seq<u8>, objs: Map<u32, FbObject>, locs: spec_fn(u32) -> int, t: u32, slot: int, x: u16)
    requires
        all_placed(d, objs, locs),
        table_at(objs, t),
        valid_slot(slot),
        has_u16(fields_of(objs, t), slot, x),
    ensures
        spec_field_u16(d, locs(t), slot) == Some(x),
{
    lemma_slot(d, objs, locs, t, slot);
}

proof fn lemma_u32(d: Seq<u8>, objs: Map<u32, FbObject>, locs: spec_fn(u32) -> int, t: u32, slot: int, x: u32)
    requires
        all_placed(d, objs, locs),
        table_at(objs, t),
        valid_slot(slot),
        has_u32(fields_of(objs, t), slot, x),
    ensures
        spec_field_u32(d, locs(t), slot) == Some(x),
{
    lemma_slot(d, objs, locs, t, slot);
}

proof fn lemma_u64(d: Seq<u8>, objs: Map<u32, FbObject>, locs: spec_fn(u32) -> int, t: u32, slot: int, x: u64)
    requires
        all_placed(d, objs, locs),
        table_at(objs, t),
        valid_slot(slot),
        has_u64(fields_of(objs, t), slot, x),
    ensures
        spec_field_u64(d, locs(t), slot) == Some(x),
{
    lemma_slot(d, objs, locs, t, slot);
}

proof fn lemma_i64(d: Seq<u8>, objs: Map<u32, FbObject>, locs: spec_fn(u32) -> int, t: u32, slot: int, x: i64)
    requires
        all_placed(d, objs, locs),
        table_at(objs, t),
        valid_slot(slot),
        has_i64(fields_of(objs, t), slot, x),
    ensures
        spec_field_i64(d, locs(t), slot) == Some(x),
{
    lemma_slot(d, objs, locs, t, slot);
}

proof fn lemma_ref(d: Seq<u8>, objs: Map<u32, FbObject>, locs: spec_fn(u32) -> int, t: u32, slot: int)
    requires
        all_placed(d, objs, locs),
        table_at(objs, t),
        valid_slot(slot),
        has_ref(objs, fields_of(objs, t), slot),
    ensures
        spec_field_ref(d, locs(t), slot) == Some(Some(locs(target(fields_of(objs, t), slot)))),
{
    lemma_slot(d, objs, locs, t, slot);
}

// ---------------------------------------------------------------------------
// Reading tables back
// ---------------------------------------------------------------------------

pub proof fn lemma_read_hash(d: Seq<u8>, objs: Map<u32, FbObject>, locs: spec_fn(u32) -> int, t: u32, h: chain::Hash)
    requires
        all_placed(d, objs, locs),
        hash_at(objs, t, h),
    ensures
        spec_read_hash(d, locs(t)) == Some(hash_table(h)),
{
    let f = fields_of(objs, t);
    lemma_u8(d, objs, locs, t, HASH_TYPE as int, HASH_TYPE_SHA256);
    lemma_ref(d, objs, locs, t, HASH_BYTES as int);
    let v = target(f, HASH_BYTES as int);
    assert(placed(d, objs[v], locs, locs(v)));
}

pub proof fn lemma_read_beacon(d: Seq<u8>, objs: Map<u32, FbObject>, locs: spec_fn(u32) -> int, t: u32, c: CheckpointBeacon)
    requires
        all_placed(d, objs, locs),
        beacon_at(objs, t, c),
    ensures
        spec_read_beacon(d, locs(t)) == Some(beacon_table(c)),
{
    let f = fields_of(objs, t);
    lemma_u32(d, objs, locs, t, BEACON_CHECKPOINT as int, c.checkpoint);
    lemma_ref(d, objs, locs, t, BEACON_HASH_PREV_BLOCK as int);
    lemma_read_hash(d, objs, locs, target(f, BEACON_HASH_PREV_BLOCK as int), c.hash_prev_block);
}

pub proof fn lemma_read_address(d: Seq<u8>, objs: Map<u32, FbObject>, locs: spec_fn(u32) -> int, t: u32, a: Address)
    requires
        all_placed(d, objs, locs),
        address_at(objs, t, a),
    ensures
        spec_read_address(d, locs(t)) == Some(address_table(a)),
{
    let f = fields_of(objs, t);
    let ip = target(f, ADDRESS_IP as int);
    lemma_u16(d, objs, locs, t, ADDRESS_PORT as int, a.port);
    lemma_ref(d, objs, locs, t, ADDRESS_IP as int);
    match a.ip {
        IpAddress::Ipv4 { ip: x } => {
            lemma_u8(d, objs, locs, t, ADDRESS_IP_TYPE as int, IP_ADDRESS_IPV4);
            lemma_u32(d, objs, locs, ip, IPV4_IP as int, x);
        },
        IpAddress::Ipv6 { ip0, ip1, ip2, ip3 } => {
            lemma_u8(d, objs, locs, t, ADDRESS_IP_TYPE as int, IP_ADDRESS_IPV6);
            lemma_u32(d, objs, locs, ip, IPV6_IP0 as int, ip0);
            lemma_u32(d, objs, locs, ip, IPV6_IP1 as int, ip1);
            lemma_u32(d, objs, locs, ip, IPV6_IP2 as int, ip2);
            lemma_u32(d, objs, locs, ip, IPV6_IP3 as int, ip3);
        },
    }
}

/// A vector of references reads back, element by element, as what each
/// referred object reads as.
proof fn lemma_read_refs<T>(
    d: Seq<u8>,
    objs: Map<u32, FbObject>,
    locs: spec_fn(u32) -> int,
    v: u32,
    f: spec_fn(Seq<u8>, int) -> Option<T>,
    expected: Seq<T>,
    n: nat,
)
    requires
        all_placed(d, objs, locs),
        objs.contains_key(v),
        objs[v] is Refs,
        expected.len() == objs[v]->Refs_0.len(),
        n <= expected.len(),
        forall|i: int| 0 <= i < expected.len() ==> #[trigger] f(d, locs(objs[v]->Refs_0[i])) == Some(expected[i]),
    ensures
        spec_read_list(d, locs(v), n, f) == Some(expected.take(n as int)),
    decreases n,
{
    let refs = objs[v]->Refs_0;
    assert(placed(d, objs[v], locs, locs(v)));
    if n == 0 {
        assert(expected.take(0) =~= Seq::<T>::empty());
    } else {
        lemma_read_refs(d, objs, locs, v, f, expected, (n - 1) as nat);
        assert(spec_vec_elem(d, locs(v), n - 1) == Some(locs(refs[n - 1])));
        assert(f(d, locs(refs[n - 1])) == Some(expected[n - 1]));
        assert(expected.take(n - 1).push(expected[n - 1]) =~= expected.take(n as int));
    }
}

/// The whole vector reads back.
proof fn lemma_read_vector<T>(
    d: Seq<u8>,
    objs: Map<u32, FbObject>,
    locs: spec_fn(u32) -> int,
    v: u32,
    f: spec_fn(Seq<u8>, int) -> Option<T>,
    expected: Seq<T>,
)
    requires
        all_placed(d, objs, locs),
        objs.contains_key(v),
        objs[v] is Refs,
        expected.len() == objs[v]->Refs_0.len(),
        forall|i: int| 0 <= i < expected.len() ==> #[trigger] f(d, locs(objs[v]->Refs_0[i])) == Some(expected[i]),
    ensures
        spec_read_vector(d, locs(v), f) == Some(expected),
{
    assert(placed(d, objs[v], locs, locs(v)));
    lemma_read_refs(d, objs, locs, v, f, expected, expected.len());
    assert(expected.take(expected.len() as int) =~= expected);
}

pub proof fn lemma_read_peers(d: Seq<u8>, objs: Map<u32, FbObject>, locs: spec_fn(u32) -> int, t: u32, peers: Seq<Address>)
    requires
        all_placed(d, objs, locs),
        peers_at(objs, t, peers),
    ensures
        spec_read_peers(d, locs(t)) == Some(peers_table(peers)),
{
    let f = fields_of(objs, t);
    let v = target(f, PEERS_PEERS as int);
    lemma_ref(d, objs, locs, t, PEERS_PEERS as int);
    let refs = objs[v]->Refs_0;
    let expected = peers.map_values(|a: Address| address_table(a));
    assert forall|i: int| 0 <= i < expected.len() implies #[trigger] address_reader()(d, locs(refs[i])) == Some(expected[i]) by {
        lemma_read_address(d, objs, locs, refs[i], peers[i]);
    }
    lemma_read_vector(d, objs, locs, v, address_reader(), expected);
}

pub proof fn lemma_read_version(d: Seq<u8>, objs: Map<u32, FbObject>, locs: spec_fn(u32) -> int, t: u32, v: VersionModel)
    requires
        all_placed(d, objs, locs),
        version_at(objs, t, v),
    ensures
        spec_read_version(d, locs(t)) == Some(version_table(v)),
{
    let f = fields_of(objs, t);
    lemma_u32(d, objs, locs, t, VERSION_VERSION as int, v.version);
    lemma_i64(d, objs, locs, t, VERSION_TIMESTAMP as int, v.timestamp);
    lemma_u64(d, objs, locs, t, VERSION_CAPABILITIES as int, v.capabilities);
    lemma_ref(d, objs, locs, t, VERSION_SENDER_ADDRESS as int);
    lemma_read_address(d, objs, locs, target(f, VERSION_SENDER_ADDRESS as int), v.sender_address);
    lemma_ref(d, objs, locs, t, VERSION_RECEIVER_ADDRESS as int);
    lemma_read_address(d, objs, locs, target(f, VERSION_RECEIVER_ADDRESS as int), v.receiver_address);
    lemma_ref(d, objs, locs, t, VERSION_USER_AGENT as int);
    let u = target(f, VERSION_USER_AGENT as int);
    assert(placed(d, objs[u], locs, locs(u)));
    encode_utf8_valid_utf8(v.user_agent);
    encode_utf8_decode_utf8(v.user_agent);
    assert(spec_string(d, locs(u)) == Some(v.user_agent));
    lemma_u32(d, objs, locs, t, VERSION_LAST_EPOCH as int, v.last_epoch);
    lemma_u64(d, objs, locs, t, VERSION_GENESIS as int, v.genesis);
    lemma_u64(d, objs, locs, t, VERSION_NONCE as int, v.nonce);
}

pub proof fn lemma_read_get_blocks(d: Seq<u8>, objs: Map<u32, FbObject>, locs: spec_fn(u32) -> int, t: u32, c: CheckpointBeacon)
    requires
        all_placed(d, objs, locs),
        get_blocks_at(objs, t, c),
    ensures
        spec_read_get_blocks(d, locs(t)) == Some(protocol::GetBlocksModel { highest_block_checkpoint: beacon_table(c) }),
{
    let f = fields_of(objs, t);
    lemma_ref(d, objs, locs, t, GET_BLOCKS_HIGHEST_BLOCK_CHECKPOINT as int);
    lemma_read_beacon(d, objs, locs, target(f, GET_BLOCKS_HIGHEST_BLOCK_CHECKPOINT as int), c);
}

pub proof fn lemma_read_signature(d: Seq<u8>, objs: Map<u32, FbObject>, locs: spec_fn(u32) -> int, t: u32, sig: Secp256k1Signature)
    requires
        all_placed(d, objs, locs),
        signature_at(objs, t, sig),
    ensures
        spec_read_signature(d, locs(t)) == Some(signature_table(sig)),
{
    let f = fields_of(objs, t);
    lemma_ref(d, objs, locs, t, SIGNATURE_R as int);
    lemma_ref(d, objs, locs, t, SIGNATURE_S as int);
    let r = target(f, SIGNATURE_R as int);
    let s = target(f, SIGNATURE_S as int);
    assert(placed(d, objs[r], locs, locs(r)));
    assert(placed(d, objs[s], locs, locs(s)));
}

pub proof fn lemma_read_proof(d: Seq<u8>, objs: Map<u32, FbObject>, locs: spec_fn(u32) -> int, t: u32, p: LeadershipProof)
    requires
        all_placed(d, objs, locs),
        proof_at(objs, t, p),
    ensures
        spec_read_proof(d, locs(t)) == Some(proof_table(p)),
{
    let f = fields_of(objs, t);
    lemma_u64(d, objs, locs, t, PROOF_INFLUENCE as int, p.influence);
    match p.block_sig {
        Some(Signature::Secp256k1(sig)) => {
            lemma_u8(d, objs, locs, t, PROOF_BLOCK_SIG_TYPE as int, SIGNATURE_SECP256K1);
            lemma_ref(d, objs, locs, t, PROOF_BLOCK_SIG as int);
            lemma_read_signature(d, objs, locs, target(f, PROOF_BLOCK_SIG as int), sig);
        },
        None => {
            lemma_u8(d, objs, locs, t, PROOF_BLOCK_SIG_TYPE as int, SIGNATURE_NONE);
        },
    }
}

pub proof fn lemma_read_header(d: Seq<u8>, objs: Map<u32, FbObject>, locs: spec_fn(u32) -> int, t: u32, h: BlockHeaderWithProof)
    requires
        all_placed(d, objs, locs),
        header_at(objs, t, h),
    ensures
        spec_read_header(d, locs(t)) == Some(header_table(h)),
{
    let f = fields_of(objs, t);
    lemma_u32(d, objs, locs, t, HEADER_VERSION as int, h.block_header.version);
    lemma_ref(d, objs, locs, t, HEADER_BEACON as int);
    lemma_ref(d, objs, locs, t, HEADER_HASH_MERKLE_ROOT as int);
    lemma_ref(d, objs, locs, t, HEADER_PROOF as int);
    lemma_read_beacon(d, objs, locs, target(f, HEADER_BEACON as int), h.block_header.beacon);
    lemma_read_hash(d, objs, locs, target(f, HEADER_HASH_MERKLE_ROOT as int), h.block_header.hash_merkle_root);
    lemma_read_proof(d, objs, locs, target(f, HEADER_PROOF as int), h.proof);
}

pub proof fn lemma_read_block(d: Seq<u8>, objs: Map<u32, FbObject>, locs: spec_fn(u32) -> int, t: u32, b: BlockModel)
    requires
        all_placed(d, objs, locs),
        block_at(objs, t, b),
    ensures
        spec_read_block(d, locs(t)) == Some(block_table(b)),
{
    let f = fields_of(objs, t);
    lemma_ref(d, objs, locs, t, BLOCK_HEADER as int);
    lemma_u32(d, objs, locs, t, BLOCK_TXN_COUNT as int, b.txn_count);
    lemma_ref(d, objs, locs, t, BLOCK_TXNS as int);
    lemma_read_header(d, objs, locs, target(f, BLOCK_HEADER as int), b.header);
    let v = target(f, BLOCK_TXNS as int);
    let expected = Seq::new(b.txns.len(), |i: int| ());
    lemma_read_vector(d, objs, locs, v, txn_reader(), expected);
}

pub proof fn lemma_read_inv_vector(d: Seq<u8>, objs: Map<u32, FbObject>, locs: spec_fn(u32) -> int, t: u32, x: InvVector)
    requires
        all_placed(d, objs, locs),
        inv_vector_at(objs, t, x),
    ensures
        spec_read_inv_vector(d, locs(t)) == Some(inv_vector_table(x)),
{
    reveal(spec_read_inv_vector);
    let f = fields_of(objs, t);
    lemma_u8(d, objs, locs, t, INV_VECTOR_TYPE as int, inv_type(x));
    lemma_ref(d, objs, locs, t, INV_VECTOR_HASH as int);
    lemma_read_hash(d, objs, locs, target(f, INV_VECTOR_HASH as int), inv_hash(x));
}

pub proof fn lemma_read_inventory(d: Seq<u8>, objs: Map<u32, FbObject>, locs: spec_fn(u32) -> int, t: u32, s: Seq<InvVector>)
    requires
        all_placed(d, objs, locs),
        inventory_at(objs, t, s),
    ensures
        spec_read_inventory(d, locs(t)) == Some(inventory_table(s)),
{
    let f = fields_of(objs, t);
    let v = target(f, INVENTORY_INVENTORY as int);
    lemma_ref(d, objs, locs, t, INVENTORY_INVENTORY as int);
    let refs = objs[v]->Refs_0;
    let expected = s.map_values(|x: InvVector| inv_vector_table(x));
    assert forall|i: int| 0 <= i < expected.len() implies #[trigger] inv_vector_reader()(d, locs(refs[i])) == Some(expected[i]) by {
        lemma_read_inv_vector(d, objs, locs, refs[i], s[i]);
    }
    lemma_read_vector(d, objs, locs, v, inv_vector_reader(), expected);
}

pub proof fn lemma_read_command(d: Seq<u8>, objs: Map<u32, FbObject>, locs: spec_fn(u32) -> int, t: u32, k: CommandModel)
    requires
        all_placed(d, objs, locs),
        table_at(objs, t),
        has_u8(fields_of(objs, t), MESSAGE_COMMAND_TYPE as int, command_tag(k)),
        has_ref(objs, fields_of(objs, t), MESSAGE_COMMAND as int),
        command_at(objs, target(fields_of(objs, t), MESSAGE_COMMAND as int), k),
    ensures
        spec_read_command(d, locs(t), command_tag(k)) == Some(command_table(k)),
{
    let c = target(fields_of(objs, t), MESSAGE_COMMAND as int);
    lemma_ref(d, objs, locs, t, MESSAGE_COMMAND as int);
    match k {
        CommandModel::GetBlocks(x) => lemma_read_get_blocks(d, objs, locs, c, x),
        CommandModel::GetPeers => {},
        CommandModel::Peers(p) => lemma_read_peers(d, objs, locs, c, p),
        CommandModel::Ping(nonce) => lemma_u64(d, objs, locs, c, HEARTBEAT_NONCE as int, nonce),
        CommandModel::Pong(nonce) => lemma_u64(d, objs, locs, c, HEARTBEAT_NONCE as int, nonce),
        CommandModel::Verack => {},
        CommandModel::Version(v) => lemma_read_version(d, objs, locs, c, v),
        CommandModel::Block(b) => lemma_read_block(d, objs, locs, c, b),
        CommandModel::Inv(s) => lemma_read_inventory(d, objs, locs, c, s),
        CommandModel::GetData(s) => lemma_read_inventory(d, objs, locs, c, s),
    }
}

/// A buffer in which a message was written reads back as its table.
pub proof fn lemma_read_message(d: Seq<u8>, objs: Map<u32, FbObject>, root: u32, m: MessageModel)
    requires
        fb_readable(d, objs, root),
        message_at(objs, root, m),
    ensures
        spec_read_message(d) == Some(message_table(m)),
        crate::wire::spec_root(d) matches Some(r) && spec_field_ref(d, r, MESSAGE_COMMAND as int) matches Some(Some(_)),
{
    let locs = choose|locs: spec_fn(u32) -> int| crate::wire::spec_root(d) == Some(locs(root)) && all_placed(d, objs, locs);
    lemma_u16(d, objs, locs, root, MESSAGE_MAGIC as int, m.magic);
    lemma_u8(d, objs, locs, root, MESSAGE_COMMAND_TYPE as int, command_tag(m.kind));
    lemma_read_command(d, objs, locs, root, m.kind);
    lemma_ref(d, objs, locs, root, MESSAGE_COMMAND as int);
}

// ---------------------------------------------------------------------------
// From tables back to values
// ---------------------------------------------------------------------------

proof fn lemma_hash_table(h: chain::Hash)
    ensures
        hash_convertible(hash_table(h)),
        spec_create_hash(hash_table(h)) == h,
{
    let chain::Hash::SHA256(a) = h;
    assert(a@.len() == 32);
    lemma_array32(a);
}

proof fn lemma_address_table(a: Address)
    ensures
        spec_create_address(address_table(a)) == Some(a),
{
}

proof fn lemma_collect_addresses(peers: Seq<Address>)
    ensures
        spec_collect_addresses(peers.map_values(|a: Address| address_table(a))) == peers,
    decreases peers.len(),
{
    let s = peers.map_values(|a: Address| address_table(a));
    if peers.len() > 0 {
        let rest = peers.drop_last();
        assert(s.drop_last() =~= rest.map_values(|a: Address| address_table(a)));
        lemma_collect_addresses(rest);
        lemma_address_table(peers.last());
        assert(rest.push(peers.last()) =~= peers);
    } else {
        assert(peers =~= Seq::<Address>::empty());
    }
}

proof fn lemma_inv_vector_table(x: InvVector)
    ensures
        inv_vector_convertible(inv_vector_table(x)),
        spec_create_inv_vector(inv_vector_table(x)) == x,
{
    lemma_hash_table(inv_hash(x));
}

proof fn lemma_inventory_table(s: Seq<InvVector>)
    ensures
        forall|j: int| 0 <= j < inventory_table(s).inventory.len() ==> #[trigger] inv_vector_convertible(inventory_table(s).inventory[j]),
        spec_create_inventory(inventory_table(s).inventory) == s,
{
    let t = inventory_table(s).inventory;
    assert forall|j: int| 0 <= j < t.len() implies #[trigger] inv_vector_convertible(t[j]) by {
        lemma_inv_vector_table(s[j]);
    }
    assert forall|j: int| 0 <= j < t.len() implies #[trigger] spec_create_inventory(t)[j] == s[j] by {
        lemma_inv_vector_table(s[j]);
    }
    assert(spec_create_inventory(t) =~= s);
}

proof fn lemma_signature_table(sig: Secp256k1Signature)
    ensures
        signature_table(sig).r.len() >= 32,
        signature_table(sig).s.len() >= 33,
        spec_create_signature(signature_table(sig)) == sig,
{
    let t = signature_table(sig);
    assert(sig.r@.len() == 32);
    assert(sig.s@.len() == 32);
    assert(t.r.subrange(0, 32) =~= sig.r@);
    assert(t.s.subrange(0, 32) =~= sig.s@);
    lemma_array32(sig.r);
    lemma_array32(sig.s);
}

proof fn lemma_block_table(b: BlockModel)
    ensures
        block_convertible(block_table(b)),
        spec_create_block(block_table(b)) == b,
{
    let t = block_table(b);
    lemma_hash_table(b.header.block_header.beacon.hash_prev_block);
    lemma_hash_table(b.header.block_header.hash_merkle_root);
    match b.header.proof.block_sig {
        Some(Signature::Secp256k1(sig)) => lemma_signature_table(sig),
        None => {},
    }
    assert(spec_create_block_sig(t.header.proof) == b.header.proof.block_sig);
    let txns = Seq::new(b.txns.len(), |i: int| chain::Transaction);
    assert(txns =~= b.txns);
}

/// The table that stands for a message converts back to the message.
pub proof fn lemma_message_table(m: MessageModel)
    ensures
        table_convertible(message_table(m)),
        spec_message_from_table(message_table(m)) == Some(m),
{
    match m.kind {
        CommandModel::GetBlocks(c) => lemma_hash_table(c.hash_prev_block),
        CommandModel::Peers(p) => lemma_collect_addresses(p),
        CommandModel::Version(v) => {
            lemma_address_table(v.sender_address);
            lemma_address_table(v.receiver_address);
        },
        CommandModel::Block(b) => lemma_block_table(b),
        CommandModel::Inv(s) => lemma_inventory_table(s),
        CommandModel::GetData(s) => lemma_inventory_table(s),
        _ => {},
    }
}

/// A buffer in which a message was written decodes to that message.
pub proof fn lemma_decode_written(d: Seq<u8>, objs: Map<u32, FbObject>, root: u32, m: MessageModel)
    requires
        fb_readable(d, objs, root),
        message_at(objs, root, m),
    ensures
        spec_read_message(d) == Some(message_table(m)),
        decodable(d),
        spec_decode(d) == Some(m),
        crate::wire::spec_root(d) matches Some(r) && spec_field_ref(d, r, MESSAGE_COMMAND as int) matches Some(Some(_)),
        m.kind matches CommandModel::Block(b) ==> block_layout(d, b),
{
    lemma_read_message(d, objs, root, m);
    lemma_message_table(m);
    if let CommandModel::Block(b) = m.kind {
        let locs = choose|locs: spec_fn(u32) -> int| crate::wire::spec_root(d) == Some(locs(root)) && all_placed(d, objs, locs);
        lemma_block_layout(d, objs, locs, root, b, m.magic);
    }
}

/// An empty table reads back without any field.
proof fn lemma_empty_table(d: Seq<u8>, objs: Map<u32, FbObject>, locs: spec_fn(u32) -> int, t: u32)
    requires
        all_placed(d, objs, locs),
        empty_at(objs, t),
    ensures
        empty_table_at(d, locs(t)),
{
    assert(fields_of(objs, t) == no_fields());
    assert forall|slot: int| valid_slot(slot) implies #[trigger] spec_field_offset(d, locs(t), slot) == Some(None::<int>) by {
        lemma_slot(d, objs, locs, t, slot);
        assert(!fields_of(objs, t).contains_key(slot));
    }
}

/// The bytes of a block hold no signature field for a block without
/// signature, and an empty table for each transaction.
proof fn lemma_block_layout(d: Seq<u8>, objs: Map<u32, FbObject>, locs: spec_fn(u32) -> int, root: u32, b: BlockModel, magic: u16)
    requires
        crate::wire::spec_root(d) == Some(locs(root)),
        all_placed(d, objs, locs),
        message_at(objs, root, MessageModel { kind: CommandModel::Block(b), magic }),
    ensures
        block_layout(d, b),
{
    let fm = fields_of(objs, root);
    let c = target(fm, MESSAGE_COMMAND as int);
    lemma_ref(d, objs, locs, root, MESSAGE_COMMAND as int);
    let fc = fields_of(objs, c);
    let h = target(fc, BLOCK_HEADER as int);
    let v = target(fc, BLOCK_TXNS as int);
    lemma_ref(d, objs, locs, c, BLOCK_HEADER as int);
    lemma_ref(d, objs, locs, c, BLOCK_TXNS as int);
    let p = target(fields_of(objs, h), HEADER_PROOF as int);
    lemma_ref(d, objs, locs, h, HEADER_PROOF as int);
    if b.header.proof.block_sig is None {
        lemma_slot(d, objs, locs, p, PROOF_BLOCK_SIG as int);
    }
    let refs = objs[v]->Refs_0;
    assert(placed(d, objs[v], locs, locs(v)));
    assert forall|i: int| 0 <= i < b.txns.len() implies (#[trigger] spec_vec_elem(d, locs(v), i) matches Some(e) && empty_table_at(d, e)) by {
        assert(empty_at(objs, refs[i]));
        lemma_empty_table(d, objs, locs, refs[i]);
    }
}

} // verus!
