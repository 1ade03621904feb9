//! From protocol messages to the bytes of the message format, through
//! flatbuffers' builder.
//!
//! Each writer below states which objects it has the builder finish: the
//! tables, with the value of each field, and the vectors and strings they
//! refer to.
use vstd::prelude::*;
use vstd::utf8::encode_utf8;

use flatbuffers::FlatBufferBuilder;

use crate::builder::{
    fb_fits, fb_objects, fb_size, grew_by, idle, slots_below, FbField, FbObject,
    fb_create_bytes, fb_create_offsets, fb_create_string, fb_end_table, fb_finish,
    fb_finished_data, fb_new, fb_push_i64, fb_push_offset, fb_push_u16, fb_push_u32, fb_push_u64,
    fb_push_u8, fb_start_table,
};

use crate::chain;
use crate::chain::{
    Block, BlockHeaderWithProof, CheckpointBeacon, InvVector, LeadershipProof, Secp256k1Signature,
    Signature, Transaction,
};
use crate::protocol::{
    ADDRESS_IP, ADDRESS_IP_TYPE, ADDRESS_PORT, BEACON_CHECKPOINT, BEACON_HASH_PREV_BLOCK,
    BLOCK_HEADER, BLOCK_TXNS, BLOCK_TXN_COUNT, COMMAND_BLOCK, COMMAND_GET_BLOCKS, COMMAND_GET_DATA,
    COMMAND_GET_PEERS, COMMAND_INV, COMMAND_PEERS, COMMAND_PING, COMMAND_PONG, COMMAND_VERACK,
    COMMAND_VERSION, GET_BLOCKS_HIGHEST_BLOCK_CHECKPOINT, HASH_BYTES, HASH_TYPE, HASH_TYPE_SHA256,
    HEADER_BEACON, HEADER_HASH_MERKLE_ROOT, HEADER_PROOF, HEADER_VERSION, HEARTBEAT_NONCE,
    INVENTORY_INVENTORY, INV_TYPE_BLOCK, INV_TYPE_DATA_REQUEST, INV_TYPE_DATA_RESULT, INV_TYPE_ERROR,
    INV_TYPE_TX, INV_VECTOR_HASH, INV_VECTOR_TYPE, IPV4_IP, IPV6_IP0, IPV6_IP1, IPV6_IP2, IPV6_IP3,
    IP_ADDRESS_IPV4, IP_ADDRESS_IPV6, MESSAGE_COMMAND, MESSAGE_COMMAND_TYPE, MESSAGE_MAGIC,
    PEERS_PEERS, PROOF_BLOCK_SIG, PROOF_BLOCK_SIG_TYPE, PROOF_INFLUENCE, SIGNATURE_NONE,
    SIGNATURE_R, SIGNATURE_S, SIGNATURE_SECP256K1, VERSION_CAPABILITIES, VERSION_GENESIS,
    VERSION_LAST_EPOCH, VERSION_NONCE, VERSION_RECEIVER_ADDRESS, VERSION_SENDER_ADDRESS,
    VERSION_TIMESTAMP, VERSION_USER_AGENT, VERSION_VERSION,
};
use crate::builder::{added, fb_phase, fb_readable, no_fields, FbPhase};
use crate::decode::{
    decodable, spec_decode, EmptyCommandArgs, GetBlocksCommandArgs, HeartbeatCommandsArgs,
    VersionCommandArgs,
};
use crate::roundtrip::{lemma_decode_written, message_table};
use crate::protocol::spec_read_message;
use crate::wire::{spec_field_offset, spec_field_ref, spec_root, spec_vec_elem};
use crate::builder::valid_slot;
use crate::chain::BlockModel;
use crate::types::{
    Address, Command, CommandModel, GetBlocks, GetData, Inv, IpAddress, Message, MessageModel, Peers,
    Ping, Pong, Version, VersionModel,
};

verus! {

/// The initial capacity of the builder.
pub const FTB_SIZE: usize = 1024;

// ---------------------------------------------------------------------------
// What has been written
// ---------------------------------------------------------------------------

/// `b` holds every object that `a` holds, unchanged.
pub open spec fn grew(a: Map<u32, FbObject>, b: Map<u32, FbObject>) -> bool {
    forall|k: u32| #[trigger] a.contains_key(k) ==> b.contains_key(k) && b[k] == a[k]
}

/// `t` is a finished table.
pub open spec fn table_at(objs: Map<u32, FbObject>, t: u32) -> bool {
    objs.contains_key(t) && objs[t] is Table
}

/// The fields of the table `t`.
pub open spec fn fields_of(objs: Map<u32, FbObject>, t: u32) -> Map<int, FbField> {
    objs[t]->Table_0
}

/// Field `slot` holds `x`, or is absent and `x` is zero.
pub open spec fn has_u8(f: Map<int, FbField>, slot: int, x: u8) -> bool {
    if f.contains_key(slot) { f[slot] == FbField::U8(x) } else { x == 0 }
}

/// Field `slot` holds `x`, or is absent and `x` is zero.
pub open spec fn has_u16(f: Map<int, FbField>, slot: int, x: u16) -> bool {
    if f.contains_key(slot) { f[slot] == FbField::U16(x) } else { x == 0 }
}

/// Field `slot` holds `x`, or is absent and `x` is zero.
pub open spec fn has_u32(f: Map<int, FbField>, slot: int, x: u32) -> bool {
    if f.contains_key(slot) { f[slot] == FbField::U32(x) } else { x == 0 }
}

/// Field `slot` holds `x`, or is absent and `x` is zero.
pub open spec fn has_u64(f: Map<int, FbField>, slot: int, x: u64) -> bool {
    if f.contains_key(slot) { f[slot] == FbField::U64(x) } else { x == 0 }
}

/// Field `slot` holds `x`, or is absent and `x` is zero.
pub open spec fn has_i64(f: Map<int, FbField>, slot: int, x: i64) -> bool {
    if f.contains_key(slot) { f[slot] == FbField::I64(x) } else { x == 0 }
}

/// Field `slot` refers to a finished object.
pub open spec fn has_ref(objs: Map<u32, FbObject>, f: Map<int, FbField>, slot: int) -> bool {
    f.contains_key(slot) && f[slot] is Ref && objs.contains_key(f[slot]->Ref_0)
}

/// The object that field `slot` refers to.
pub open spec fn target(f: Map<int, FbField>, slot: int) -> u32 {
    f[slot]->Ref_0
}

/// The digest bytes of a hash.
pub open spec fn hash_bytes(h: chain::Hash) -> Seq<u8> {
    match h {
        chain::Hash::SHA256(a) => a@,
    }
}

/// `t` is a `Hash` table for `h`.
pub open spec fn hash_at(objs: Map<u32, FbObject>, t: u32, h: chain::Hash) -> bool {
    let f = fields_of(objs, t);
    &&& table_at(objs, t)
    &&& has_u8(f, HASH_TYPE as int, HASH_TYPE_SHA256)
    &&& has_ref(objs, f, HASH_BYTES as int)
    &&& objs[target(f, HASH_BYTES as int)] == FbObject::Bytes(hash_bytes(h))
}

/// `t` is a `CheckpointBeacon` table for `c`.
pub open spec fn beacon_at(objs: Map<u32, FbObject>, t: u32, c: CheckpointBeacon) -> bool {
    let f = fields_of(objs, t);
    &&& table_at(objs, t)
    &&& has_u32(f, BEACON_CHECKPOINT as int, c.checkpoint)
    &&& has_ref(objs, f, BEACON_HASH_PREV_BLOCK as int)
    &&& hash_at(objs, target(f, BEACON_HASH_PREV_BLOCK as int), c.hash_prev_block)
}

/// `t` is an `Address` table for `a`, with its IP table.
pub open spec fn address_at(objs: Map<u32, FbObject>, t: u32, a: Address) -> bool {
    let f = fields_of(objs, t);
    let ip = target(f, ADDRESS_IP as int);
    let g = fields_of(objs, ip);
    &&& table_at(objs, t)
    &&& has_u16(f, ADDRESS_PORT as int, a.port)
    &&& has_ref(objs, f, ADDRESS_IP as int)
    &&& table_at(objs, ip)
    &&& match a.ip {
        IpAddress::Ipv4 { ip } => {
            &&& has_u8(f, ADDRESS_IP_TYPE as int, IP_ADDRESS_IPV4)
            &&& has_u32(g, IPV4_IP as int, ip)
        },
        IpAddress::Ipv6 { ip0, ip1, ip2, ip3 } => {
            &&& has_u8(f, ADDRESS_IP_TYPE as int, IP_ADDRESS_IPV6)
            &&& has_u32(g, IPV6_IP0 as int, ip0)
            &&& has_u32(g, IPV6_IP1 as int, ip1)
            &&& has_u32(g, IPV6_IP2 as int, ip2)
            &&& has_u32(g, IPV6_IP3 as int, ip3)
        },
    }
}

/// `t` is a `GetBlocks` table for the checkpoint `c`.
pub open spec fn get_blocks_at(objs: Map<u32, FbObject>, t: u32, c: CheckpointBeacon) -> bool {
    let f = fields_of(objs, t);
    &&& table_at(objs, t)
    &&& has_ref(objs, f, GET_BLOCKS_HIGHEST_BLOCK_CHECKPOINT as int)
    &&& beacon_at(objs, target(f, GET_BLOCKS_HIGHEST_BLOCK_CHECKPOINT as int), c)
}

/// Field `slot` refers to a vector of references.
pub open spec fn refs_of(objs: Map<u32, FbObject>, f: Map<int, FbField>, slot: int) -> Seq<u32> {
    objs[target(f, slot)]->Refs_0
}

/// Field `slot` refers to a vector of references.
pub open spec fn has_refs(objs: Map<u32, FbObject>, f: Map<int, FbField>, slot: int) -> bool {
    has_ref(objs, f, slot) && objs[target(f, slot)] is Refs
}

/// `t` is a `Peers` table for the addresses `peers`.
pub open spec fn peers_at(objs: Map<u32, FbObject>, t: u32, peers: Seq<Address>) -> bool {
    let f = fields_of(objs, t);
    let s = refs_of(objs, f, PEERS_PEERS as int);
    &&& table_at(objs, t)
    &&& has_refs(objs, f, PEERS_PEERS as int)
    &&& s.len() == peers.len()
    &&& forall|i: int| 0 <= i < s.len() ==> #[trigger] address_at(objs, s[i], peers[i])
}

/// `t` is a `Ping` or `Pong` table for `nonce`.
pub open spec fn heartbeat_at(objs: Map<u32, FbObject>, t: u32, nonce: u64) -> bool {
    table_at(objs, t) && has_u64(fields_of(objs, t), HEARTBEAT_NONCE as int, nonce)
}

/// `t` is a `Version` table for `v`.
pub open spec fn version_at(objs: Map<u32, FbObject>, t: u32, v: VersionModel) -> bool {
    let f = fields_of(objs, t);
    &&& table_at(objs, t)
    &&& has_u32(f, VERSION_VERSION as int, v.version)
    &&& has_i64(f, VERSION_TIMESTAMP as int, v.timestamp)
    &&& has_u64(f, VERSION_CAPABILITIES as int, v.capabilities)
    &&& has_ref(objs, f, VERSION_SENDER_ADDRESS as int)
    &&& address_at(objs, target(f, VERSION_SENDER_ADDRESS as int), v.sender_address)
    &&& has_ref(objs, f, VERSION_RECEIVER_ADDRESS as int)
    &&& address_at(objs, target(f, VERSION_RECEIVER_ADDRESS as int), v.receiver_address)
    &&& has_ref(objs, f, VERSION_USER_AGENT as int)
    &&& objs[target(f, VERSION_USER_AGENT as int)] == FbObject::Str(v.user_agent)
    &&& has_u32(f, VERSION_LAST_EPOCH as int, v.last_epoch)
    &&& has_u64(f, VERSION_GENESIS as int, v.genesis)
    &&& has_u64(f, VERSION_NONCE as int, v.nonce)
}

/// `t` is a `Secp256k1Signature` table for `sig`: `r`, and `s` followed by `v`.
pub open spec fn signature_at(objs: Map<u32, FbObject>, t: u32, sig: Secp256k1Signature) -> bool {
    let f = fields_of(objs, t);
    &&& table_at(objs, t)
    &&& has_ref(objs, f, SIGNATURE_R as int)
    &&& objs[target(f, SIGNATURE_R as int)] == FbObject::Bytes(sig.r@)
    &&& has_ref(objs, f, SIGNATURE_S as int)
    &&& objs[target(f, SIGNATURE_S as int)] == FbObject::Bytes(sig.s@.push(sig.v))
}

/// `t` is a `LeadershipProof` table for `p`.
pub open spec fn proof_at(objs: Map<u32, FbObject>, t: u32, p: LeadershipProof) -> bool {
    let f = fields_of(objs, t);
    &&& table_at(objs, t)
    &&& has_u64(f, PROOF_INFLUENCE as int, p.influence)
    &&& match p.block_sig {
        Some(Signature::Secp256k1(sig)) => {
            &&& has_u8(f, PROOF_BLOCK_SIG_TYPE as int, SIGNATURE_SECP256K1)
            &&& has_ref(objs, f, PROOF_BLOCK_SIG as int)
            &&& signature_at(objs, target(f, PROOF_BLOCK_SIG as int), sig)
        },
        None => {
            &&& has_u8(f, PROOF_BLOCK_SIG_TYPE as int, SIGNATURE_NONE)
            &&& !f.contains_key(PROOF_BLOCK_SIG as int)
        },
    }
}

/// `t` is a `BlockHeader` table for `h`.
pub open spec fn header_at(objs: Map<u32, FbObject>, t: u32, h: BlockHeaderWithProof) -> bool {
    let f = fields_of(objs, t);
    &&& table_at(objs, t)
    &&& has_u32(f, HEADER_VERSION as int, h.block_header.version)
    &&& has_ref(objs, f, HEADER_BEACON as int)
    &&& beacon_at(objs, target(f, HEADER_BEACON as int), h.block_header.beacon)
    &&& has_ref(objs, f, HEADER_HASH_MERKLE_ROOT as int)
    &&& hash_at(objs, target(f, HEADER_HASH_MERKLE_ROOT as int), h.block_header.hash_merkle_root)
    &&& has_ref(objs, f, HEADER_PROOF as int)
    &&& proof_at(objs, target(f, HEADER_PROOF as int), h.proof)
}

/// `t` is a table without fields.
pub open spec fn empty_at(objs: Map<u32, FbObject>, t: u32) -> bool {
    objs.contains_key(t) && objs[t] == FbObject::Table(no_fields())
}

/// `t` is a `Block` table for `b`: its vector of transactions refers to an
/// empty table for each transaction.
pub open spec fn block_at(objs: Map<u32, FbObject>, t: u32, b: BlockModel) -> bool {
    let f = fields_of(objs, t);
    &&& table_at(objs, t)
    &&& has_ref(objs, f, BLOCK_HEADER as int)
    &&& header_at(objs, target(f, BLOCK_HEADER as int), b.header)
    &&& has_u32(f, BLOCK_TXN_COUNT as int, b.txn_count)
    &&& has_refs(objs, f, BLOCK_TXNS as int)
    &&& refs_of(objs, f, BLOCK_TXNS as int).len() == b.txns.len()
    &&& forall|i: int| 0 <= i < b.txns.len() ==> #[trigger] empty_at(objs, refs_of(objs, f, BLOCK_TXNS as int)[i])
}

/// The type tag of an inventory entry.
pub open spec fn inv_type(x: InvVector) -> u8 {
    match x {
        InvVector::Error(_) => INV_TYPE_ERROR,
        InvVector::Tx(_) => INV_TYPE_TX,
        InvVector::Block(_) => INV_TYPE_BLOCK,
        InvVector::DataRequest(_) => INV_TYPE_DATA_REQUEST,
        InvVector::DataResult(_) => INV_TYPE_DATA_RESULT,
    }
}

/// The hash of an inventory entry.
pub open spec fn inv_hash(x: InvVector) -> chain::Hash {
    match x {
        InvVector::Error(h) => h,
        InvVector::Tx(h) => h,
        InvVector::Block(h) => h,
        InvVector::DataRequest(h) => h,
        InvVector::DataResult(h) => h,
    }
}

/// `t` is an `InvVector` table for `x`.
pub open spec fn inv_vector_at(objs: Map<u32, FbObject>, t: u32, x: InvVector) -> bool {
    let f = fields_of(objs, t);
    &&& table_at(objs, t)
    &&& has_u8(f, INV_VECTOR_TYPE as int, inv_type(x))
    &&& has_ref(objs, f, INV_VECTOR_HASH as int)
    &&& hash_at(objs, target(f, INV_VECTOR_HASH as int), inv_hash(x))
}

/// `t` is an `Inv` or `GetData` table for the entries `inventory`.
pub open spec fn inventory_at(objs: Map<u32, FbObject>, t: u32, inventory: Seq<InvVector>) -> bool {
    let f = fields_of(objs, t);
    let s = refs_of(objs, f, INVENTORY_INVENTORY as int);
    &&& table_at(objs, t)
    &&& has_refs(objs, f, INVENTORY_INVENTORY as int)
    &&& s.len() == inventory.len()
    &&& forall|i: int| 0 <= i < s.len() ==> #[trigger] inv_vector_at(objs, s[i], inventory[i])
}

/// The union tag of a command.
pub open spec fn command_tag(k: CommandModel) -> u8 {
    match k {
        CommandModel::GetBlocks(_) => COMMAND_GET_BLOCKS,
        CommandModel::GetPeers => COMMAND_GET_PEERS,
        CommandModel::Peers(_) => COMMAND_PEERS,
        CommandModel::Ping(_) => COMMAND_PING,
        CommandModel::Pong(_) => COMMAND_PONG,
        CommandModel::Verack => COMMAND_VERACK,
        CommandModel::Version(_) => COMMAND_VERSION,
        CommandModel::Block(_) => COMMAND_BLOCK,
        CommandModel::Inv(_) => COMMAND_INV,
        CommandModel::GetData(_) => COMMAND_GET_DATA,
    }
}

/// `t` is the table of the command `k`.
pub open spec fn command_at(objs: Map<u32, FbObject>, t: u32, k: CommandModel) -> bool {
    &&& table_at(objs, t)
    &&& match k {
        CommandModel::GetBlocks(c) => get_blocks_at(objs, t, c),
        CommandModel::GetPeers => true,
        CommandModel::Peers(peers) => peers_at(objs, t, peers),
        CommandModel::Ping(nonce) => heartbeat_at(objs, t, nonce),
        CommandModel::Pong(nonce) => heartbeat_at(objs, t, nonce),
        CommandModel::Verack => true,
        CommandModel::Version(v) => version_at(objs, t, v),
        CommandModel::Block(b) => block_at(objs, t, b),
        CommandModel::Inv(inventory) => inventory_at(objs, t, inventory),
        CommandModel::GetData(inventory) => inventory_at(objs, t, inventory),
    }
}

/// `t` is the root `Message` table of `m`.
pub open spec fn message_at(objs: Map<u32, FbObject>, t: u32, m: MessageModel) -> bool {
    let f = fields_of(objs, t);
    &&& table_at(objs, t)
    &&& has_u16(f, MESSAGE_MAGIC as int, m.magic)
    &&& has_u8(f, MESSAGE_COMMAND_TYPE as int, command_tag(m.kind))
    &&& has_ref(objs, f, MESSAGE_COMMAND as int)
    &&& command_at(objs, target(f, MESSAGE_COMMAND as int), m.kind)
}

/// `b` holds every offset that `a` holds.
pub open spec fn keys_kept(a: Map<u32, FbObject>, b: Map<u32, FbObject>) -> bool {
    forall|k: u32| #[trigger] a.contains_key(k) ==> b.contains_key(k)
}

/// What a writer of one object keeps: the builder is outside any table
/// again, every offset handed out before is still there, and, while what
/// was written fits, every object finished before is unchanged.
pub open spec fn wrote(old_b: FlatBufferBuilder<'static>, new_b: FlatBufferBuilder<'static>) -> bool {
    &&& idle(new_b)
    &&& fb_size(old_b) <= fb_size(new_b)
    &&& keys_kept(fb_objects(old_b), fb_objects(new_b))
    &&& fb_fits(new_b) ==> fb_fits(old_b) && grew(fb_objects(old_b), fb_objects(new_b))
}

// ---------------------------------------------------------------------------
// What stays written
// ---------------------------------------------------------------------------

proof fn lemma_wrote_trans(a: FlatBufferBuilder<'static>, b: FlatBufferBuilder<'static>, c: FlatBufferBuilder<'static>)
    requires
        wrote(a, b),
        wrote(b, c),
    ensures
        wrote(a, c),
{
    if fb_fits(c) {
        lemma_grew_trans(fb_objects(a), fb_objects(b), fb_objects(c));
    }
}

proof fn lemma_grew_trans(a: Map<u32, FbObject>, b: Map<u32, FbObject>, c: Map<u32, FbObject>)
    requires
        grew(a, b),
        grew(b, c),
    ensures
        grew(a, c),
{
    assert forall|k: u32| #[trigger] a.contains_key(k) implies c.contains_key(k) && c[k] == a[k] by {
        assert(b.contains_key(k));
    }
}

proof fn lemma_hash_kept(a: Map<u32, FbObject>, b: Map<u32, FbObject>, t: u32, h: chain::Hash)
    requires
        grew(a, b),
        hash_at(a, t, h),
    ensures
        hash_at(b, t, h),
{
    assert(a.contains_key(t));
    assert(a.contains_key(target(fields_of(a, t), HASH_BYTES as int)));
}

proof fn lemma_beacon_kept(a: Map<u32, FbObject>, b: Map<u32, FbObject>, t: u32, c: CheckpointBeacon)
    requires
        grew(a, b),
        beacon_at(a, t, c),
    ensures
        beacon_at(b, t, c),
{
    assert(a.contains_key(t));
    let h = target(fields_of(a, t), BEACON_HASH_PREV_BLOCK as int);
    assert(a.contains_key(h));
    lemma_hash_kept(a, b, h, c.hash_prev_block);
}

proof fn lemma_address_kept(a: Map<u32, FbObject>, b: Map<u32, FbObject>, t: u32, x: Address)
    requires
        grew(a, b),
        address_at(a, t, x),
    ensures
        address_at(b, t, x),
{
    assert(a.contains_key(t));
    assert(a.contains_key(target(fields_of(a, t), ADDRESS_IP as int)));
}

proof fn lemma_inv_vector_kept(a: Map<u32, FbObject>, b: Map<u32, FbObject>, t: u32, x: InvVector)
    requires
        grew(a, b),
        inv_vector_at(a, t, x),
    ensures
        inv_vector_at(b, t, x),
{
    assert(a.contains_key(t));
    let h = target(fields_of(a, t), INV_VECTOR_HASH as int);
    assert(a.contains_key(h));
    lemma_hash_kept(a, b, h, inv_hash(x));
}

proof fn lemma_signature_kept(a: Map<u32, FbObject>, b: Map<u32, FbObject>, t: u32, s: Secp256k1Signature)
    requires
        grew(a, b),
        signature_at(a, t, s),
    ensures
        signature_at(b, t, s),
{
    assert(a.contains_key(t));
    assert(a.contains_key(target(fields_of(a, t), SIGNATURE_R as int)));
    assert(a.contains_key(target(fields_of(a, t), SIGNATURE_S as int)));
}

proof fn lemma_proof_kept(a: Map<u32, FbObject>, b: Map<u32, FbObject>, t: u32, p: LeadershipProof)
    requires
        grew(a, b),
        proof_at(a, t, p),
    ensures
        proof_at(b, t, p),
{
    assert(a.contains_key(t));
    match p.block_sig {
        Some(Signature::Secp256k1(sig)) => {
            let s = target(fields_of(a, t), PROOF_BLOCK_SIG as int);
            assert(a.contains_key(s));
            lemma_signature_kept(a, b, s, sig);
        },
        None => {},
    }
}

proof fn lemma_header_kept(a: Map<u32, FbObject>, b: Map<u32, FbObject>, t: u32, h: BlockHeaderWithProof)
    requires
        grew(a, b),
        header_at(a, t, h),
    ensures
        header_at(b, t, h),
{
    assert(a.contains_key(t));
    let f = fields_of(a, t);
    assert(a.contains_key(target(f, HEADER_BEACON as int)));
    assert(a.contains_key(target(f, HEADER_HASH_MERKLE_ROOT as int)));
    assert(a.contains_key(target(f, HEADER_PROOF as int)));
    lemma_beacon_kept(a, b, target(f, HEADER_BEACON as int), h.block_header.beacon);
    lemma_hash_kept(a, b, target(f, HEADER_HASH_MERKLE_ROOT as int), h.block_header.hash_merkle_root);
    lemma_proof_kept(a, b, target(f, HEADER_PROOF as int), h.proof);
}

// ---------------------------------------------------------------------------
// Tables
// ---------------------------------------------------------------------------

/// Ends the table started at `start`, whose slots lie within a vtable of
/// `n` bytes: at most `7 + n` bytes are written.
fn end_table_within(b: &mut FlatBufferBuilder<'static>, start: u32, Ghost(n): Ghost<nat>) -> (table: u32)
    requires
        fb_phase(*old(b)) matches FbPhase::Building(Some((s, _))) && s == start,
        slots_below(fb_phase(*old(b))->Building_0->Some_0.1, n),
        fb_size(*old(b)) + 71 <= i32::MAX,
    ensures
        added(*old(b), *final(b), table, FbObject::Table(fb_phase(*old(b))->Building_0->Some_0.1), 7 + n),
{
    fb_end_table(b, start)
}

/// Writes a `Hash` table.
fn write_hash(b: &mut FlatBufferBuilder<'static>, hash: &chain::Hash) -> (t: u32)
    requires
        idle(*old(b)),
        fb_size(*old(b)) + 62 + 64 <= i32::MAX,
    ensures
        wrote(*old(b), *final(b)),
        grew_by(*old(b), *final(b), 62),
        fb_objects(*final(b)).contains_key(t),
        fb_fits(*final(b)) ==> hash_at(fb_objects(*final(b)), t, *hash),
{
    let chain::Hash::SHA256(bytes) = hash;
    let ftb_bytes = fb_create_bytes(b, bytes.as_slice());
    let start = fb_start_table(b);
    fb_push_offset(b, HASH_BYTES as i16, ftb_bytes);
    fb_push_u8(b, HASH_TYPE as i16, HASH_TYPE_SHA256, HASH_TYPE_SHA256);
    end_table_within(b, start, Ghost(8))
}

/// Writes a `CheckpointBeacon` table.
fn write_beacon(b: &mut FlatBufferBuilder<'static>, beacon: &CheckpointBeacon) -> (t: u32)
    requires
        idle(*old(b)),
        fb_size(*old(b)) + 91 + 64 <= i32::MAX,
    ensures
        wrote(*old(b), *final(b)),
        grew_by(*old(b), *final(b), 91),
        fb_objects(*final(b)).contains_key(t),
        fb_fits(*final(b)) ==> beacon_at(fb_objects(*final(b)), t, *beacon),
{
    let hash_prev_block = write_hash(b, &beacon.hash_prev_block);
    let ghost mid = *b;
    let start = fb_start_table(b);
    fb_push_offset(b, BEACON_HASH_PREV_BLOCK as i16, hash_prev_block);
    fb_push_u32(b, BEACON_CHECKPOINT as i16, beacon.checkpoint, 0);
    let t = end_table_within(b, start, Ghost(8));
    proof {
        if fb_fits(*b) {
            lemma_hash_kept(fb_objects(mid), fb_objects(*b), hash_prev_block, beacon.hash_prev_block);
        }
    }
    t
}

/// Writes an `Address` table and the `Ipv4` or `Ipv6` table it refers to.
fn write_address(b: &mut FlatBufferBuilder<'static>, address: &Address) -> (t: u32)
    requires
        idle(*old(b)),
        fb_size(*old(b)) + 75 + 64 <= i32::MAX,
    ensures
        wrote(*old(b), *final(b)),
        grew_by(*old(b), *final(b), 75),
        fb_objects(*final(b)).contains_key(t),
        fb_fits(*final(b)) ==> address_at(fb_objects(*final(b)), t, *address),
{
    match address.ip {
        IpAddress::Ipv4 { ip } => {
            let ip_start = fb_start_table(b);
            fb_push_u32(b, IPV4_IP as i16, ip, 0);
            let ip_command = end_table_within(b, ip_start, Ghost(6));
            let start = fb_start_table(b);
            fb_push_offset(b, ADDRESS_IP as i16, ip_command);
            fb_push_u16(b, ADDRESS_PORT as i16, address.port, 0);
            fb_push_u8(b, ADDRESS_IP_TYPE as i16, IP_ADDRESS_IPV4, 0);
            end_table_within(b, start, Ghost(10))
        },
        IpAddress::Ipv6 { ip0, ip1, ip2, ip3 } => {
            let ip_start = fb_start_table(b);
            fb_push_u32(b, IPV6_IP3 as i16, ip3, 0);
            fb_push_u32(b, IPV6_IP2 as i16, ip2, 0);
            fb_push_u32(b, IPV6_IP1 as i16, ip1, 0);
            fb_push_u32(b, IPV6_IP0 as i16, ip0, 0);
            let ip_command = end_table_within(b, ip_start, Ghost(12));
            let start = fb_start_table(b);
            fb_push_offset(b, ADDRESS_IP as i16, ip_command);
            fb_push_u16(b, ADDRESS_PORT as i16, address.port, 0);
            fb_push_u8(b, ADDRESS_IP_TYPE as i16, IP_ADDRESS_IPV6, 0);
            end_table_within(b, start, Ghost(10))
        },
    }
}

/// Writes a table without fields.
fn write_empty_table(b: &mut FlatBufferBuilder<'static>) -> (t: u32)
    requires
        idle(*old(b)),
        fb_size(*old(b)) + 11 + 64 <= i32::MAX,
    ensures
        wrote(*old(b), *final(b)),
        grew_by(*old(b), *final(b), 11),
        fb_objects(*final(b)).contains_key(t),
        fb_fits(*final(b)) ==> empty_at(fb_objects(*final(b)), t),
{
    let start = fb_start_table(b);
    end_table_within(b, start, Ghost(4))
}

/// Writes the root `Message` table for a command of type `command_type`
/// whose table is `command`.
fn write_message(b: &mut FlatBufferBuilder<'static>, magic: u16, command_type: u8, command: u32) -> (t: u32)
    requires
        idle(*old(b)),
        fb_size(*old(b)) + 28 + 64 <= i32::MAX,
        fb_objects(*old(b)).contains_key(command),
    ensures
        wrote(*old(b), *final(b)),
        grew_by(*old(b), *final(b), 28),
        fb_objects(*final(b)).contains_key(t),
        fb_fits(*final(b)) ==> {
            let objs = fb_objects(*final(b));
            let f = fields_of(objs, t);
            &&& table_at(objs, t)
            &&& has_u16(f, MESSAGE_MAGIC as int, magic)
            &&& has_u8(f, MESSAGE_COMMAND_TYPE as int, command_type)
            &&& has_ref(objs, f, MESSAGE_COMMAND as int)
            &&& target(f, MESSAGE_COMMAND as int) == command
        },
{
    let start = fb_start_table(b);
    fb_push_offset(b, MESSAGE_COMMAND as i16, command);
    fb_push_u16(b, MESSAGE_MAGIC as i16, magic, 0);
    fb_push_u8(b, MESSAGE_COMMAND_TYPE as i16, command_type, 0);
    end_table_within(b, start, Ghost(10))
}

/// Writes the `Ipv4`/`Ipv6` and `Address` tables of each address, in order.
fn write_addresses(b: &mut FlatBufferBuilder<'static>, peers: &[Address]) -> (offsets: Vec<u32>)
    requires
        idle(*old(b)),
        fb_size(*old(b)) + 75 * peers@.len() + 64 <= i32::MAX,
    ensures
        wrote(*old(b), *final(b)),
        grew_by(*old(b), *final(b), 75 * peers@.len()),
        offsets@.len() == peers@.len(),
        forall|i: int| 0 <= i < offsets@.len() ==> fb_objects(*final(b)).contains_key(#[trigger] offsets@[i]),
        fb_fits(*final(b)) ==> forall|i: int| 0 <= i < offsets@.len() ==> #[trigger] address_at(fb_objects(*final(b)), offsets@[i], peers@[i]),
{
    let mut offsets: Vec<u32> = Vec::new();
    let mut i: usize = 0;
    while i < peers.len()
        invariant
            i <= peers@.len(),
            wrote(*old(b), *b),
            fb_size(*old(b)) + 75 * peers@.len() + 64 <= i32::MAX,
            grew_by(*old(b), *b, 75 * i as nat),
            offsets@.len() == i,
            forall|j: int| 0 <= j < i ==> fb_objects(*b).contains_key(#[trigger] offsets@[j]),
            fb_fits(*b) ==> forall|j: int| 0 <= j < i ==> #[trigger] address_at(fb_objects(*b), offsets@[j], peers@[j]),
        decreases peers@.len() - i,
    {
        let ghost before = *b;
        let address = write_address(b, &peers[i]);
        proof {
            lemma_wrote_trans(*old(b), before, *b);
            if fb_fits(*b) {
                assert forall|j: int| 0 <= j < i implies #[trigger] address_at(fb_objects(*b), offsets@[j], peers@[j]) by {
                    lemma_address_kept(fb_objects(before), fb_objects(*b), offsets@[j], peers@[j]);
                }
            }
        }
        offsets.push(address);
        i = i + 1;
    }
    offsets
}

/// Writes an `InvVector` table.
fn write_inv_vector(b: &mut FlatBufferBuilder<'static>, inv_vector: &InvVector) -> (t: u32)
    requires
        idle(*old(b)),
        fb_size(*old(b)) + 85 + 64 <= i32::MAX,
    ensures
        wrote(*old(b), *final(b)),
        grew_by(*old(b), *final(b), 85),
        fb_objects(*final(b)).contains_key(t),
        fb_fits(*final(b)) ==> inv_vector_at(fb_objects(*final(b)), t, *inv_vector),
{
    let (hash, ftb_type) = match inv_vector {
        InvVector::Error(hash) => (hash, INV_TYPE_ERROR),
        InvVector::Tx(hash) => (hash, INV_TYPE_TX),
        InvVector::Block(hash) => (hash, INV_TYPE_BLOCK),
        InvVector::DataRequest(hash) => (hash, INV_TYPE_DATA_REQUEST),
        InvVector::DataResult(hash) => (hash, INV_TYPE_DATA_RESULT),
    };
    let ftb_hash = write_hash(b, hash);
    let ghost mid = *b;
    let start = fb_start_table(b);
    fb_push_offset(b, INV_VECTOR_HASH as i16, ftb_hash);
    fb_push_u8(b, INV_VECTOR_TYPE as i16, ftb_type, INV_TYPE_ERROR);
    let t = end_table_within(b, start, Ghost(8));
    proof {
        if fb_fits(*b) {
            lemma_hash_kept(fb_objects(mid), fb_objects(*b), ftb_hash, inv_hash(*inv_vector));
        }
    }
    t
}

/// Writes the `InvVector` table of each inventory entry, in order.
fn write_inv_vectors(b: &mut FlatBufferBuilder<'static>, inventory: &[InvVector]) -> (offsets: Vec<u32>)
    requires
        idle(*old(b)),
        fb_size(*old(b)) + 85 * inventory@.len() + 64 <= i32::MAX,
    ensures
        wrote(*old(b), *final(b)),
        grew_by(*old(b), *final(b), 85 * inventory@.len()),
        offsets@.len() == inventory@.len(),
        forall|i: int| 0 <= i < offsets@.len() ==> fb_objects(*final(b)).contains_key(#[trigger] offsets@[i]),
        fb_fits(*final(b)) ==> forall|i: int| 0 <= i < offsets@.len() ==> #[trigger] inv_vector_at(fb_objects(*final(b)), offsets@[i], inventory@[i]),
{
    let mut offsets: Vec<u32> = Vec::new();
    let mut i: usize = 0;
    while i < inventory.len()
        invariant
            i <= inventory@.len(),
            wrote(*old(b), *b),
            fb_size(*old(b)) + 85 * inventory@.len() + 64 <= i32::MAX,
            grew_by(*old(b), *b, 85 * i as nat),
            offsets@.len() == i,
            forall|j: int| 0 <= j < i ==> fb_objects(*b).contains_key(#[trigger] offsets@[j]),
            fb_fits(*b) ==> forall|j: int| 0 <= j < i ==> #[trigger] inv_vector_at(fb_objects(*b), offsets@[j], inventory@[j]),
        decreases inventory@.len() - i,
    {
        let ghost before = *b;
        let v = write_inv_vector(b, &inventory[i]);
        proof {
            lemma_wrote_trans(*old(b), before, *b);
            if fb_fits(*b) {
                assert forall|j: int| 0 <= j < i implies #[trigger] inv_vector_at(fb_objects(*b), offsets@[j], inventory@[j]) by {
                    lemma_inv_vector_kept(fb_objects(before), fb_objects(*b), offsets@[j], inventory@[j]);
                }
            }
        }
        offsets.push(v);
        i = i + 1;
    }
    offsets
}

/// Writes an inventory table (of an `Inv` or a `GetData` command).
fn write_inventory(b: &mut FlatBufferBuilder<'static>, inventory: &[InvVector]) -> (t: u32)
    requires
        idle(*old(b)),
        fb_size(*old(b)) + 89 * inventory@.len() + 27 + 64 <= i32::MAX,
    ensures
        wrote(*old(b), *final(b)),
        grew_by(*old(b), *final(b), 89 * inventory@.len() + 27),
        fb_objects(*final(b)).contains_key(t),
        fb_fits(*final(b)) ==> inventory_at(fb_objects(*final(b)), t, inventory@),
{
    let ftb_inv_vectors = write_inv_vectors(b, inventory);
    let ghost mid = *b;
    let vector = fb_create_offsets(b, ftb_inv_vectors.as_slice());
    let start = fb_start_table(b);
    fb_push_offset(b, INVENTORY_INVENTORY as i16, vector);
    let t = end_table_within(b, start, Ghost(6));
    proof {
        if fb_fits(*b) {
            let last = fb_objects(*b);
            assert(grew(fb_objects(mid), last));
            assert forall|i: int| 0 <= i < ftb_inv_vectors@.len() implies #[trigger] inv_vector_at(last, ftb_inv_vectors@[i], inventory@[i]) by {
                lemma_inv_vector_kept(fb_objects(mid), last, ftb_inv_vectors@[i], inventory@[i]);
            }
        }
    }
    t
}

/// Writes the `Secp256k1Signature` table of a signature: `r`, and `s`
/// followed by `v`.
fn write_signature(b: &mut FlatBufferBuilder<'static>, secp256k1: &Secp256k1Signature) -> (t: u32)
    requires
        idle(*old(b)),
        fb_size(*old(b)) + 108 + 64 <= i32::MAX,
    ensures
        wrote(*old(b), *final(b)),
        grew_by(*old(b), *final(b), 108),
        fb_objects(*final(b)).contains_key(t),
        fb_fits(*final(b)) ==> signature_at(fb_objects(*final(b)), t, *secp256k1),
{
    let mut s: Vec<u8> = Vec::new();
    let mut i: usize = 0;
    while i < 32
        invariant
            i <= 32,
            s@ =~= secp256k1.s@.take(i as int),
        decreases 32 - i,
    {
        s.push(secp256k1.s[i]);
        i = i + 1;
    }
    s.push(secp256k1.v);
    proof {
        assert(secp256k1.s@.take(32) =~= secp256k1.s@);
    }
    let r_ftb = fb_create_bytes(b, secp256k1.r.as_slice());
    let s_ftb = fb_create_bytes(b, s.as_slice());
    let start = fb_start_table(b);
    fb_push_offset(b, SIGNATURE_S as i16, s_ftb);
    fb_push_offset(b, SIGNATURE_R as i16, r_ftb);
    end_table_within(b, start, Ghost(8))
}

/// Writes a `LeadershipProof` table, with the signature table it refers to.
fn write_proof(b: &mut FlatBufferBuilder<'static>, proof: &LeadershipProof) -> (t: u32)
    requires
        idle(*old(b)),
        fb_size(*old(b)) + 148 + 64 <= i32::MAX,
    ensures
        wrote(*old(b), *final(b)),
        grew_by(*old(b), *final(b), 148),
        fb_objects(*final(b)).contains_key(t),
        fb_fits(*final(b)) ==> proof_at(fb_objects(*final(b)), t, *proof),
{
    let block_sig_type = match proof.block_sig {
        Some(Signature::Secp256k1(_)) => SIGNATURE_SECP256K1,
        None => SIGNATURE_NONE,
    };
    let block_sig = match &proof.block_sig {
        Some(Signature::Secp256k1(secp256k1)) => Some(write_signature(b, secp256k1)),
        None => None,
    };
    let ghost mid = *b;
    let start = fb_start_table(b);
    fb_push_u64(b, PROOF_INFLUENCE as i16, proof.influence, 0);
    match block_sig {
        Some(sig) => fb_push_offset(b, PROOF_BLOCK_SIG as i16, sig),
        None => {},
    }
    fb_push_u8(b, PROOF_BLOCK_SIG_TYPE as i16, block_sig_type, SIGNATURE_NONE);
    let t = end_table_within(b, start, Ghost(10));
    proof {
        if fb_fits(*b) {
            match proof.block_sig {
                Some(Signature::Secp256k1(sig)) => {
                    lemma_signature_kept(fb_objects(mid), fb_objects(*b), block_sig->Some_0, sig);
                },
                None => {},
            }
        }
    }
    t
}

/// Writes a `BlockHeader` table with the tables it refers to.
fn write_header(b: &mut FlatBufferBuilder<'static>, header: &BlockHeaderWithProof) -> (t: u32)
    requires
        idle(*old(b)),
        fb_size(*old(b)) + 348 + 64 <= i32::MAX,
    ensures
        wrote(*old(b), *final(b)),
        grew_by(*old(b), *final(b), 348),
        fb_objects(*final(b)).contains_key(t),
        fb_fits(*final(b)) ==> header_at(fb_objects(*final(b)), t, *header),
{
    let beacon = write_beacon(b, &header.block_header.beacon);
    let ghost b1 = *b;
    let hash_merkle_root = write_hash(b, &header.block_header.hash_merkle_root);
    let ghost b2 = *b;
    let proof = write_proof(b, &header.proof);
    let ghost b3 = *b;
    let start = fb_start_table(b);
    fb_push_offset(b, HEADER_PROOF as i16, proof);
    fb_push_offset(b, HEADER_HASH_MERKLE_ROOT as i16, hash_merkle_root);
    fb_push_offset(b, HEADER_BEACON as i16, beacon);
    fb_push_u32(b, HEADER_VERSION as i16, header.block_header.version, 0);
    let t = end_table_within(b, start, Ghost(12));
    proof {
        lemma_wrote_trans(*old(b), b1, b2);
        lemma_wrote_trans(*old(b), b2, b3);
        if fb_fits(*b) {
            assert(grew(fb_objects(b3), fb_objects(*b)));
            lemma_grew_trans(fb_objects(b2), fb_objects(b3), fb_objects(*b));
            lemma_grew_trans(fb_objects(b1), fb_objects(b2), fb_objects(*b));
            lemma_beacon_kept(fb_objects(b1), fb_objects(*b), beacon, header.block_header.beacon);
            lemma_hash_kept(fb_objects(b2), fb_objects(*b), hash_merkle_root, header.block_header.hash_merkle_root);
            lemma_proof_kept(fb_objects(b3), fb_objects(*b), proof, header.proof);
        }
    }
    t
}

/// Writes an empty `Transaction` table for each transaction, in order.
fn write_txns(b: &mut FlatBufferBuilder<'static>, txns: &[Transaction]) -> (offsets: Vec<u32>)
    requires
        idle(*old(b)),
        fb_size(*old(b)) + 11 * txns@.len() + 64 <= i32::MAX,
    ensures
        wrote(*old(b), *final(b)),
        grew_by(*old(b), *final(b), 11 * txns@.len()),
        offsets@.len() == txns@.len(),
        forall|i: int| 0 <= i < offsets@.len() ==> fb_objects(*final(b)).contains_key(#[trigger] offsets@[i]),
        fb_fits(*final(b)) ==> forall|i: int| 0 <= i < offsets@.len() ==> #[trigger] empty_at(fb_objects(*final(b)), offsets@[i]),
{
    let mut offsets: Vec<u32> = Vec::new();
    let mut i: usize = 0;
    while i < txns.len()
        invariant
            i <= txns@.len(),
            wrote(*old(b), *b),
            fb_size(*old(b)) + 11 * txns@.len() + 64 <= i32::MAX,
            grew_by(*old(b), *b, 11 * i as nat),
            offsets@.len() == i,
            forall|j: int| 0 <= j < i ==> fb_objects(*b).contains_key(#[trigger] offsets@[j]),
            fb_fits(*b) ==> forall|j: int| 0 <= j < i ==> #[trigger] empty_at(fb_objects(*b), offsets@[j]),
        decreases txns@.len() - i,
    {
        let ghost before = *b;
        let txn = write_empty_table(b);
        proof {
            lemma_wrote_trans(*old(b), before, *b);
            if fb_fits(*b) {
                assert(fb_fits(before));
                assert(grew(fb_objects(before), fb_objects(*b)));
                assert forall|j: int| 0 <= j < i implies #[trigger] empty_at(fb_objects(*b), offsets@[j]) by {
                    assert(empty_at(fb_objects(before), offsets@[j]));
                    assert(fb_objects(before).contains_key(offsets@[j]));
                }
            }
        }
        offsets.push(txn);
        i = i + 1;
    }
    offsets
}

proof fn lemma_command_kept(a: Map<u32, FbObject>, b: Map<u32, FbObject>, t: u32, k: CommandModel)
    requires
        grew(a, b),
        command_at(a, t, k),
    ensures
        command_at(b, t, k),
{
    assert(a.contains_key(t));
    let f = fields_of(a, t);
    match k {
        CommandModel::GetBlocks(c) => {
            let x = target(f, GET_BLOCKS_HIGHEST_BLOCK_CHECKPOINT as int);
            assert(a.contains_key(x));
            lemma_beacon_kept(a, b, x, c);
        },
        CommandModel::Peers(peers) => {
            let v = target(f, PEERS_PEERS as int);
            assert(a.contains_key(v));
            let s = refs_of(a, f, PEERS_PEERS as int);
            assert forall|i: int| 0 <= i < s.len() implies #[trigger] address_at(b, s[i], peers[i]) by {
                lemma_address_kept(a, b, s[i], peers[i]);
            }
        },
        CommandModel::Version(v) => {
            assert(a.contains_key(target(f, VERSION_SENDER_ADDRESS as int)));
            assert(a.contains_key(target(f, VERSION_RECEIVER_ADDRESS as int)));
            assert(a.contains_key(target(f, VERSION_USER_AGENT as int)));
            lemma_address_kept(a, b, target(f, VERSION_SENDER_ADDRESS as int), v.sender_address);
            lemma_address_kept(a, b, target(f, VERSION_RECEIVER_ADDRESS as int), v.receiver_address);
        },
        CommandModel::Block(x) => {
            assert(a.contains_key(target(f, BLOCK_HEADER as int)));
            assert(a.contains_key(target(f, BLOCK_TXNS as int)));
            lemma_header_kept(a, b, target(f, BLOCK_HEADER as int), x.header);
            let s = refs_of(a, f, BLOCK_TXNS as int);
            assert forall|i: int| 0 <= i < x.txns.len() implies #[trigger] empty_at(b, s[i]) by {
                assert(empty_at(a, s[i]));
            }
        },
        CommandModel::Inv(inventory) => {
            assert(a.contains_key(target(f, INVENTORY_INVENTORY as int)));
            let s = refs_of(a, f, INVENTORY_INVENTORY as int);
            assert forall|i: int| 0 <= i < s.len() implies #[trigger] inv_vector_at(b, s[i], inventory[i]) by {
                lemma_inv_vector_kept(a, b, s[i], inventory[i]);
            }
        },
        CommandModel::GetData(inventory) => {
            assert(a.contains_key(target(f, INVENTORY_INVENTORY as int)));
            let s = refs_of(a, f, INVENTORY_INVENTORY as int);
            assert forall|i: int| 0 <= i < s.len() implies #[trigger] inv_vector_at(b, s[i], inventory[i]) by {
                lemma_inv_vector_kept(a, b, s[i], inventory[i]);
            }
        },
        _ => {},
    }
}

// ---------------------------------------------------------------------------
// Messages
// ---------------------------------------------------------------------------

/// The root table of the bytes `d` refers to a command table.
pub open spec fn carries_command(d: Seq<u8>) -> bool {
    spec_root(d) matches Some(r) && spec_field_ref(d, r, MESSAGE_COMMAND as int) matches Some(Some(_))
}

/// Where the object that field `slot` of the table at `loc` refers to
/// starts.
pub open spec fn ref_loc(d: Seq<u8>, loc: int, slot: int) -> int {
    spec_field_ref(d, loc, slot)->Some_0->Some_0
}

/// The table at `loc` has no field.
pub open spec fn empty_table_at(d: Seq<u8>, loc: int) -> bool {
    forall|slot: int| valid_slot(slot) ==> #[trigger] spec_field_offset(d, loc, slot) == Some(None::<int>)
}

/// What the bytes of the block message `b` hold beyond what decoding reads:
/// the leadership proof has no signature field when the block has no
/// signature, and each transaction is an empty table.
pub open spec fn block_layout(d: Seq<u8>, b: BlockModel) -> bool {
    let c = ref_loc(d, spec_root(d)->Some_0, MESSAGE_COMMAND as int);
    let p = ref_loc(d, ref_loc(d, c, BLOCK_HEADER as int), HEADER_PROOF as int);
    let v = ref_loc(d, c, BLOCK_TXNS as int);
    &&& b.header.proof.block_sig is None ==> spec_field_ref(d, p, PROOF_BLOCK_SIG as int) == Some(None::<int>)
    &&& forall|i: int| 0 <= i < b.txns.len() ==> (#[trigger] spec_vec_elem(d, v, i) matches Some(e) && empty_table_at(d, e))
}

/// The bytes `d` read back as the message `m`: their root message table
/// reads as the table that stands for `m` (its magic, its command's type
/// tag, and every table under it, field by field: for a peers command the
/// vector holds exactly one address per peer, for a block the signature's
/// exact `r` and `s` bytes and its type tag), the root table refers to a
/// command table (also for the commands whose table decoding does not look
/// into), the bytes decode back to `m`, and a block's bytes hold what
/// [`block_layout`] says.
pub open spec fn reads_back(d: Seq<u8>, m: MessageModel) -> bool {
    &&& spec_read_message(d) == Some(message_table(m))
    &&& carries_command(d)
    &&& decodable(d)
    &&& spec_decode(d) == Some(m)
    &&& m.kind matches CommandModel::Block(b) ==> block_layout(d, b)
}

/// At most how many bytes the tables of a command take, with their
/// padding: a pushed field at most twice its size less one, a table's
/// offset to its vtable 7 and its vtable two bytes per slot up to the last
/// one it uses and two more, a byte vector or string its length and 7 or 8,
/// and a vector of offsets 4 per element and 7.
pub open spec fn command_bound(k: CommandModel) -> nat {
    match k {
        CommandModel::GetBlocks(_) => 111,
        CommandModel::GetPeers => 11,
        CommandModel::Peers(peers) => 79 * peers.len() + 27,
        CommandModel::Ping(_) => 28,
        CommandModel::Pong(_) => 28,
        CommandModel::Verack => 11,
        CommandModel::Version(v) => 282 + encode_utf8(v.user_agent).len(),
        CommandModel::Block(b) => 15 * b.txns.len() + 393,
        CommandModel::Inv(inventory) => 89 * inventory.len() + 27,
        CommandModel::GetData(inventory) => 89 * inventory.len() + 27,
    }
}

/// At most how many bytes encoding a message takes: its command's tables,
/// the root table (28 bytes at most) and the root offset (11 at most).
pub open spec fn encoded_bound(m: MessageModel) -> nat {
    command_bound(m.kind) + 39
}

/// A builder that holds `b`'s bytes has room to encode `m` within the 2 GiB
/// that the format addresses, with the 64 bytes that a table's vtable may
/// take to spare: the builder computes each table's offset to its vtable as
/// a signed 32-bit difference, which overflows past 2 GiB.
pub open spec fn has_room(b: FlatBufferBuilder<'static>, m: MessageModel) -> bool {
    fb_size(b) + encoded_bound(m) + 64 <= i32::MAX
}

/// The bytes `d` encode `m` after the `base` bytes a builder held before:
/// they take at most `base + encoded_bound(m)` bytes and read back as `m`.
pub open spec fn encodes_after(d: Seq<u8>, m: MessageModel, base: nat) -> bool {
    &&& d.len() <= base + encoded_bound(m)
    &&& reads_back(d, m)
}

/// A builder for one message, with nothing written yet.
pub fn message_builder() -> (builder: FlatBufferBuilder<'static>)
    ensures
        idle(builder),
        fb_size(builder) == 0,
        fb_objects(builder) == crate::builder::no_objects(),
{
    fb_new(FTB_SIZE)
}

/// The addresses of a peers command and the network's magic number.
pub struct PeersFlatbufferArgs<'a> {
    pub magic: u16,
    pub peers: &'a [Address],
}

/// A block command and the network's magic number.
pub struct BlockCommandArgs<'a> {
    pub magic: u16,
    pub header: BlockHeaderWithProof,
    pub txn_count: u32,
    pub txns: &'a [Transaction],
}

/// The inventory entries of an inv or get-data command and the network's
/// magic number.
pub struct InventoryArgs<'a> {
    pub magic: u16,
    pub inventory: &'a [InvVector],
}

/// Finishes the buffer with `message` as its root and returns its bytes.
fn build_flatbuffer(builder: &mut FlatBufferBuilder<'static>, message: u32) -> (data: Vec<u8>)
    requires
        idle(*old(builder)),
        fb_objects(*old(builder)).contains_key(message),
    ensures
        fb_phase(*final(builder)) == FbPhase::Finished(message),
        data@.len() <= fb_size(*old(builder)) + 11,
        data@.len() <= i32::MAX ==> fb_fits(*old(builder)),
        data@.len() <= i32::MAX ==> fb_readable(data@, fb_objects(*old(builder)), message),
{
    fb_finish(builder, message);
    fb_finished_data(builder)
}

/// Writes the root `Message` table for the command table `command` of the
/// command `kind`, and finishes the buffer.
fn finish_message(
    builder: &mut FlatBufferBuilder<'static>,
    magic: u16,
    command_type: u8,
    command: u32,
    Ghost(kind): Ghost<CommandModel>,
) -> (data: Vec<u8>)
    requires
        idle(*old(builder)),
        fb_objects(*old(builder)).contains_key(command),
        command_type == command_tag(kind),
        fb_fits(*old(builder)) ==> command_at(fb_objects(*old(builder)), command, kind),
        fb_size(*old(builder)) + 39 + 64 <= i32::MAX,
    ensures
        fb_phase(*final(builder)) is Finished,
        data@.len() <= fb_size(*old(builder)) + 39,
        reads_back(data@, MessageModel { kind, magic }),
{
    let ghost before = *builder;
    let message = write_message(builder, magic, command_type, command);
    let ghost written = *builder;
    let data = build_flatbuffer(builder, message);
    proof {
        if data@.len() <= i32::MAX {
            lemma_command_kept(fb_objects(before), fb_objects(written), command, kind);
            lemma_decode_written(data@, fb_objects(written), message, MessageModel { kind, magic });
        }
    }
    data
}

/// Create a get-blocks flatbuffer to encode a witnet's get-blocks message
pub fn create_get_blocks_flatbuffer(
    builder: &mut FlatBufferBuilder<'static>,
    get_blocks_args: GetBlocksCommandArgs,
) -> (data: Vec<u8>)
    requires
        idle(*old(builder)),
        has_room(*old(builder), MessageModel {
                kind: CommandModel::GetBlocks(get_blocks_args.highest_block_checkpoint),
                magic: get_blocks_args.magic,
            }),
    ensures
        fb_phase(*final(builder)) is Finished,
        encodes_after(data@, MessageModel {
            kind: CommandModel::GetBlocks(get_blocks_args.highest_block_checkpoint),
            magic: get_blocks_args.magic,
        }, fb_size(*old(builder))),
{
    let beacon = write_beacon(builder, &get_blocks_args.highest_block_checkpoint);
    let ghost mid = *builder;
    let start = fb_start_table(builder);
    fb_push_offset(builder, GET_BLOCKS_HIGHEST_BLOCK_CHECKPOINT as i16, beacon);
    let get_blocks_command = end_table_within(builder, start, Ghost(6));
    proof {
        if fb_fits(*builder) {
            lemma_beacon_kept(fb_objects(mid), fb_objects(*builder), beacon, get_blocks_args.highest_block_checkpoint);
        }
    }
    finish_message(
        builder,
        get_blocks_args.magic,
        COMMAND_GET_BLOCKS,
        get_blocks_command,
        Ghost(CommandModel::GetBlocks(get_blocks_args.highest_block_checkpoint)),
    )
}

/// Create a get-peers flatbuffer to encode a witnet's get-peers message
pub fn create_get_peers_flatbuffer(
    builder: &mut FlatBufferBuilder<'static>,
    get_peers_args: EmptyCommandArgs,
) -> (data: Vec<u8>)
    requires
        idle(*old(builder)),
        has_room(*old(builder), MessageModel { kind: CommandModel::GetPeers, magic: get_peers_args.magic }),
    ensures
        fb_phase(*final(builder)) is Finished,
        encodes_after(data@, MessageModel { kind: CommandModel::GetPeers, magic: get_peers_args.magic }, fb_size(*old(builder))),
{
    let get_peers_command = write_empty_table(builder);
    finish_message(builder, get_peers_args.magic, COMMAND_GET_PEERS, get_peers_command, Ghost(CommandModel::GetPeers))
}

/// Create a peers flatbuffer to encode a witnet's peers message
pub fn create_peers_flatbuffer(
    builder: &mut FlatBufferBuilder<'static>,
    peers_args: PeersFlatbufferArgs,
) -> (data: Vec<u8>)
    requires
        idle(*old(builder)),
        has_room(*old(builder), MessageModel { kind: CommandModel::Peers(peers_args.peers@), magic: peers_args.magic }),
    ensures
        fb_phase(*final(builder)) is Finished,
        encodes_after(data@, MessageModel { kind: CommandModel::Peers(peers_args.peers@), magic: peers_args.magic }, fb_size(*old(builder))),
{
    let addresses_command = write_addresses(builder, peers_args.peers);
    let ghost mid = *builder;
    let addresses = fb_create_offsets(builder, addresses_command.as_slice());
    let start = fb_start_table(builder);
    fb_push_offset(builder, PEERS_PEERS as i16, addresses);
    let peers_command = end_table_within(builder, start, Ghost(6));
    proof {
        if fb_fits(*builder) {
            let last = fb_objects(*builder);
            assert(grew(fb_objects(mid), last));
            assert forall|i: int| 0 <= i < addresses_command@.len() implies #[trigger] address_at(last, addresses_command@[i], peers_args.peers@[i]) by {
                lemma_address_kept(fb_objects(mid), last, addresses_command@[i], peers_args.peers@[i]);
            }
        }
    }
    finish_message(builder, peers_args.magic, COMMAND_PEERS, peers_command, Ghost(CommandModel::Peers(peers_args.peers@)))
}

/// Writes a `Ping` or `Pong` table.
fn write_heartbeat(builder: &mut FlatBufferBuilder<'static>, nonce: u64) -> (t: u32)
    requires
        idle(*old(builder)),
        fb_size(*old(builder)) + 28 + 64 <= i32::MAX,
    ensures
        wrote(*old(builder), *final(builder)),
        grew_by(*old(builder), *final(builder), 28),
        fb_objects(*final(builder)).contains_key(t),
        fb_fits(*final(builder)) ==> heartbeat_at(fb_objects(*final(builder)), t, nonce),
{
    let start = fb_start_table(builder);
    fb_push_u64(builder, HEARTBEAT_NONCE as i16, nonce, 0);
    end_table_within(builder, start, Ghost(6))
}

/// Create a ping flatbuffer to encode a witnet's ping message
pub fn create_ping_flatbuffer(
    builder: &mut FlatBufferBuilder<'static>,
    ping_args: HeartbeatCommandsArgs,
) -> (data: Vec<u8>)
    requires
        idle(*old(builder)),
        has_room(*old(builder), MessageModel { kind: CommandModel::Ping(ping_args.nonce), magic: ping_args.magic }),
    ensures
        fb_phase(*final(builder)) is Finished,
        encodes_after(data@, MessageModel { kind: CommandModel::Ping(ping_args.nonce), magic: ping_args.magic }, fb_size(*old(builder))),
{
    let ping_command = write_heartbeat(builder, ping_args.nonce);
    finish_message(builder, ping_args.magic, COMMAND_PING, ping_command, Ghost(CommandModel::Ping(ping_args.nonce)))
}

/// Create a pong flatbuffer to encode a witnet's pong message
pub fn create_pong_flatbuffer(
    builder: &mut FlatBufferBuilder<'static>,
    pong_args: HeartbeatCommandsArgs,
) -> (data: Vec<u8>)
    requires
        idle(*old(builder)),
        has_room(*old(builder), MessageModel { kind: CommandModel::Pong(pong_args.nonce), magic: pong_args.magic }),
    ensures
        fb_phase(*final(builder)) is Finished,
        encodes_after(data@, MessageModel { kind: CommandModel::Pong(pong_args.nonce), magic: pong_args.magic }, fb_size(*old(builder))),
{
    let pong_command = write_heartbeat(builder, pong_args.nonce);
    finish_message(builder, pong_args.magic, COMMAND_PONG, pong_command, Ghost(CommandModel::Pong(pong_args.nonce)))
}

/// Create a verack flatbuffer to encode a witnet's verack message
pub fn create_verack_flatbuffer(
    builder: &mut FlatBufferBuilder<'static>,
    verack_args: EmptyCommandArgs,
) -> (data: Vec<u8>)
    requires
        idle(*old(builder)),
        has_room(*old(builder), MessageModel { kind: CommandModel::Verack, magic: verack_args.magic }),
    ensures
        fb_phase(*final(builder)) is Finished,
        encodes_after(data@, MessageModel { kind: CommandModel::Verack, magic: verack_args.magic }, fb_size(*old(builder))),
{
    let verack_command = write_empty_table(builder);
    finish_message(builder, verack_args.magic, COMMAND_VERACK, verack_command, Ghost(CommandModel::Verack))
}

/// Create a version flatbuffer to encode a witnet's version message
pub fn create_version_flatbuffer(
    builder: &mut FlatBufferBuilder<'static>,
    version_args: VersionCommandArgs,
) -> (data: Vec<u8>)
    requires
        idle(*old(builder)),
        has_room(*old(builder), MessageModel {
                kind: CommandModel::Version(VersionModel {
                    version: version_args.version,
                    timestamp: version_args.timestamp,
                    capabilities: version_args.capabilities,
                    sender_address: *version_args.sender_address,
                    receiver_address: *version_args.receiver_address,
                    user_agent: version_args.user_agent@,
                    last_epoch: version_args.last_epoch,
                    genesis: version_args.genesis,
                    nonce: version_args.nonce,
                }),
                magic: version_args.magic,
            }),
    ensures
        fb_phase(*final(builder)) is Finished,
        encodes_after(data@, MessageModel {
            kind: CommandModel::Version(VersionModel {
                version: version_args.version,
                timestamp: version_args.timestamp,
                capabilities: version_args.capabilities,
                sender_address: *version_args.sender_address,
                receiver_address: *version_args.receiver_address,
                user_agent: version_args.user_agent@,
                last_epoch: version_args.last_epoch,
                genesis: version_args.genesis,
                nonce: version_args.nonce,
            }),
            magic: version_args.magic,
        }, fb_size(*old(builder))),
{
    let ghost kind = CommandModel::Version(VersionModel {
        version: version_args.version,
        timestamp: version_args.timestamp,
        capabilities: version_args.capabilities,
        sender_address: *version_args.sender_address,
        receiver_address: *version_args.receiver_address,
        user_agent: version_args.user_agent@,
        last_epoch: version_args.last_epoch,
        genesis: version_args.genesis,
        nonce: version_args.nonce,
    });
    let sender_address_command = write_address(builder, version_args.sender_address);
    let ghost b1 = *builder;
    let receiver_address_command = write_address(builder, version_args.receiver_address);
    let ghost b2 = *builder;
    let user_agent = fb_create_string(builder, version_args.user_agent);
    let ghost b3 = *builder;
    let start = fb_start_table(builder);
    fb_push_u64(builder, VERSION_NONCE as i16, version_args.nonce, 0);
    fb_push_u64(builder, VERSION_GENESIS as i16, version_args.genesis, 0);
    fb_push_u64(builder, VERSION_CAPABILITIES as i16, version_args.capabilities, 0);
    fb_push_i64(builder, VERSION_TIMESTAMP as i16, version_args.timestamp, 0);
    fb_push_u32(builder, VERSION_LAST_EPOCH as i16, version_args.last_epoch, 0);
    fb_push_offset(builder, VERSION_USER_AGENT as i16, user_agent);
    fb_push_offset(builder, VERSION_RECEIVER_ADDRESS as i16, receiver_address_command);
    fb_push_offset(builder, VERSION_SENDER_ADDRESS as i16, sender_address_command);
    fb_push_u32(builder, VERSION_VERSION as i16, version_args.version, 0);
    let version_command = end_table_within(builder, start, Ghost(22));
    proof {
        if fb_fits(*builder) {
            let last = fb_objects(*builder);
            assert(grew(fb_objects(b3), last));
            assert(grew(fb_objects(b2), fb_objects(b3)));
            lemma_grew_trans(fb_objects(b2), fb_objects(b3), last);
            lemma_grew_trans(fb_objects(b1), fb_objects(b2), last);
            lemma_address_kept(fb_objects(b1), last, sender_address_command, *version_args.sender_address);
            lemma_address_kept(fb_objects(b2), last, receiver_address_command, *version_args.receiver_address);
        }
    }
    finish_message(builder, version_args.magic, COMMAND_VERSION, version_command, Ghost(kind))
}

/// Create a block flatbuffer to encode a witnet's block message
pub fn create_block_flatbuffer(
    builder: &mut FlatBufferBuilder<'static>,
    block_args: BlockCommandArgs,
) -> (data: Vec<u8>)
    requires
        idle(*old(builder)),
        has_room(*old(builder), MessageModel {
                kind: CommandModel::Block(BlockModel {
                    header: block_args.header,
                    txn_count: block_args.txn_count,
                    txns: block_args.txns@,
                }),
                magic: block_args.magic,
            }),
    ensures
        fb_phase(*final(builder)) is Finished,
        encodes_after(data@, MessageModel {
            kind: CommandModel::Block(BlockModel {
                header: block_args.header,
                txn_count: block_args.txn_count,
                txns: block_args.txns@,
            }),
            magic: block_args.magic,
        }, fb_size(*old(builder))),
{
    let ghost block = BlockModel { header: block_args.header, txn_count: block_args.txn_count, txns: block_args.txns@ };
    let header = write_header(builder, &block_args.header);
    let ghost b1 = *builder;
    let txns = write_txns(builder, block_args.txns);
    let ghost bt = *builder;
    let txns_ftb = fb_create_offsets(builder, txns.as_slice());
    let ghost b2 = *builder;
    let start = fb_start_table(builder);
    fb_push_offset(builder, BLOCK_TXNS as i16, txns_ftb);
    fb_push_u32(builder, BLOCK_TXN_COUNT as i16, block_args.txn_count, 0);
    fb_push_offset(builder, BLOCK_HEADER as i16, header);
    let block_command = end_table_within(builder, start, Ghost(10));
    proof {
        if fb_fits(*builder) {
            let last = fb_objects(*builder);
            assert(grew(fb_objects(b2), last));
            lemma_grew_trans(fb_objects(b1), fb_objects(b2), last);
            lemma_header_kept(fb_objects(b1), last, header, block_args.header);
            assert(grew(fb_objects(bt), fb_objects(b2)));
            lemma_grew_trans(fb_objects(bt), fb_objects(b2), last);
            assert forall|i: int| 0 <= i < txns@.len() implies #[trigger] empty_at(last, txns@[i]) by {
                assert(empty_at(fb_objects(bt), txns@[i]));
                assert(fb_objects(bt).contains_key(txns@[i]));
            }
        }
    }
    finish_message(builder, block_args.magic, COMMAND_BLOCK, block_command, Ghost(CommandModel::Block(block)))
}

/// Create an inv flatbuffer to encode a witnet's inv message
pub fn create_inv_flatbuffer(
    builder: &mut FlatBufferBuilder<'static>,
    inv_args: InventoryArgs,
) -> (data: Vec<u8>)
    requires
        idle(*old(builder)),
        has_room(*old(builder), MessageModel { kind: CommandModel::Inv(inv_args.inventory@), magic: inv_args.magic }),
    ensures
        fb_phase(*final(builder)) is Finished,
        encodes_after(data@, MessageModel { kind: CommandModel::Inv(inv_args.inventory@), magic: inv_args.magic }, fb_size(*old(builder))),
{
    let inv_command = write_inventory(builder, inv_args.inventory);
    finish_message(builder, inv_args.magic, COMMAND_INV, inv_command, Ghost(CommandModel::Inv(inv_args.inventory@)))
}

/// Create a get-data flatbuffer to encode a witnet's get-data message
pub fn create_get_data_flatbuffer(
    builder: &mut FlatBufferBuilder<'static>,
    get_data_args: InventoryArgs,
) -> (data: Vec<u8>)
    requires
        idle(*old(builder)),
        has_room(*old(builder), MessageModel { kind: CommandModel::GetData(get_data_args.inventory@), magic: get_data_args.magic }),
    ensures
        fb_phase(*final(builder)) is Finished,
        encodes_after(data@, MessageModel { kind: CommandModel::GetData(get_data_args.inventory@), magic: get_data_args.magic }, fb_size(*old(builder))),
{
    let get_data_command = write_inventory(builder, get_data_args.inventory);
    finish_message(builder, get_data_args.magic, COMMAND_GET_DATA, get_data_command, Ghost(CommandModel::GetData(get_data_args.inventory@)))
}

impl Message {
    /// Encodes the message into the bytes of the message format: bytes
    /// that read back as the message, and decode back to it. The message
    /// must leave room within the 2 GiB that the format addresses (see
    /// [`has_room`]).
    pub fn into(self) -> (data: Vec<u8>)
        requires
            encoded_bound(self@) + 64 <= i32::MAX,
        ensures
            data@.len() <= encoded_bound(self@),
            reads_back(data@, self@),
    {
        let mut builder = message_builder();
        match self.kind {
            Command::GetBlocks(GetBlocks { highest_block_checkpoint }) => create_get_blocks_flatbuffer(
                &mut builder,
                GetBlocksCommandArgs { magic: self.magic, highest_block_checkpoint },
            ),
            Command::GetPeers(_) => create_get_peers_flatbuffer(&mut builder, EmptyCommandArgs { magic: self.magic }),
            Command::Peers(Peers { peers }) => create_peers_flatbuffer(
                &mut builder,
                PeersFlatbufferArgs { magic: self.magic, peers: peers.as_slice() },
            ),
            Command::Ping(Ping { nonce }) => create_ping_flatbuffer(
                &mut builder,
                HeartbeatCommandsArgs { magic: self.magic, nonce },
            ),
            Command::Pong(Pong { nonce }) => create_pong_flatbuffer(
                &mut builder,
                HeartbeatCommandsArgs { magic: self.magic, nonce },
            ),
            Command::Verack(_) => create_verack_flatbuffer(&mut builder, EmptyCommandArgs { magic: self.magic }),
            Command::Version(Version {
                version,
                timestamp,
                capabilities,
                sender_address,
                receiver_address,
                user_agent,
                last_epoch,
                genesis,
                nonce,
            }) => create_version_flatbuffer(
                &mut builder,
                VersionCommandArgs {
                    magic: self.magic,
                    version,
                    timestamp,
                    capabilities,
                    sender_address: &sender_address,
                    receiver_address: &receiver_address,
                    user_agent: user_agent.as_str(),
                    last_epoch,
                    genesis,
                    nonce,
                },
            ),
            Command::Block(Block { header, txn_count, txns }) => create_block_flatbuffer(
                &mut builder,
                BlockCommandArgs { magic: self.magic, header, txn_count, txns: txns.as_slice() },
            ),
            Command::Inv(Inv { inventory }) => create_inv_flatbuffer(
                &mut builder,
                InventoryArgs { magic: self.magic, inventory: inventory.as_slice() },
            ),
            Command::GetData(GetData { inventory }) => create_get_data_flatbuffer(
                &mut builder,
                InventoryArgs { magic: self.magic, inventory: inventory.as_slice() },
            ),
        }
    }
}

} // verus!
