//! What the bytes of a message hold, slot by slot, for the message they
//! decode to. Each law starts from bytes that decode to a message (those
//! that `TryFrom::try_from` and `try_decode` accept, and those that
//! `Message::into` and the `create_*_flatbuffer` writers produce, which
//! decode back to the message they were given) and says where in the
//! schema's tables each part of the message is stored.
use vstd::prelude::*;

use crate::chain;
use crate::chain::{spec_array32, spec_sha256_hash, CheckpointBeacon, InvVector, Signature};
use crate::decode::{
    spec_create_inventory, spec_create_block, spec_create_version, decodable, spec_collect_addresses, spec_create_address, spec_create_inv_vector, spec_decode,
};
use crate::protocol;
use crate::protocol::{
    inv_vector_reader, spec_read_inventory, spec_read_version, spec_read_block, spec_read_header, spec_read_proof, spec_read_message, spec_read_address, spec_read_beacon, spec_read_hash, spec_read_inv_vector,
    spec_read_list, address_reader, ADDRESS_IP, ADDRESS_IP_TYPE, ADDRESS_PORT, BEACON_CHECKPOINT,
    BEACON_HASH_PREV_BLOCK, BLOCK_HEADER, BLOCK_TXNS, BLOCK_TXN_COUNT, COMMAND_BLOCK,
    COMMAND_GET_BLOCKS, COMMAND_GET_DATA, COMMAND_GET_PEERS, COMMAND_VERACK, COMMAND_INV, COMMAND_PEERS, COMMAND_PING, COMMAND_PONG,
    COMMAND_VERSION, GET_BLOCKS_HIGHEST_BLOCK_CHECKPOINT, HASH_BYTES, HASH_TYPE, HASH_TYPE_SHA256,
    HEADER_BEACON, HEADER_HASH_MERKLE_ROOT, HEADER_PROOF, HEADER_VERSION, HEARTBEAT_NONCE,
    INVENTORY_INVENTORY, INV_TYPE_BLOCK, INV_TYPE_DATA_REQUEST, INV_TYPE_DATA_RESULT, INV_TYPE_ERROR,
    INV_TYPE_TX, INV_VECTOR_HASH, INV_VECTOR_TYPE, IPV4_IP, IPV6_IP0, IPV6_IP1, IPV6_IP2, IPV6_IP3,
    IP_ADDRESS_IPV4, IP_ADDRESS_IPV6, MESSAGE_COMMAND, MESSAGE_COMMAND_TYPE, MESSAGE_MAGIC,
    PEERS_PEERS, PROOF_BLOCK_SIG, PROOF_BLOCK_SIG_TYPE, PROOF_INFLUENCE, SIGNATURE_R, SIGNATURE_S, SIGNATURE_SECP256K1, VERSION_CAPABILITIES, VERSION_GENESIS, VERSION_LAST_EPOCH,
    VERSION_NONCE, VERSION_RECEIVER_ADDRESS, VERSION_SENDER_ADDRESS, VERSION_TIMESTAMP,
    VERSION_USER_AGENT, VERSION_VERSION,
};
use crate::types::{Address, CommandModel, IpAddress, MessageModel, VersionModel};
use crate::wire::{
    spec_bytes, spec_field_i64, spec_field_ref, spec_field_u16, spec_field_u32, spec_field_u64,
    spec_field_u8, spec_root, spec_string, spec_vec_elem, spec_vec_len,
};

verus! {

/// Where the command table of the bytes `d` starts.
pub open spec fn command_table_loc(d: Seq<u8>) -> int {
    spec_field_ref(d, spec_root(d)->Some_0, MESSAGE_COMMAND as int)->Some_0->Some_0
}

/// The root table of `d` holds `magic` in its magic slot and `tag` in its
/// command-type slot, and refers to a command table.
pub open spec fn root_holds(d: Seq<u8>, magic: u16, tag: u8) -> bool {
    &&& spec_root(d) matches Some(r)
    &&& spec_field_u16(d, r, MESSAGE_MAGIC as int) == Some(magic)
    &&& spec_field_u8(d, r, MESSAGE_COMMAND_TYPE as int) == Some(tag)
    &&& spec_field_ref(d, r, MESSAGE_COMMAND as int) matches Some(Some(_))
}

/// A ping is stored under the command type `COMMAND_PING`, a pong under
/// `COMMAND_PONG`, each with its nonce in the heartbeat table's nonce slot.
#[verifier::spinoff_prover]
#[verifier::rlimit(100)]
pub proof fn law_heartbeat_slots(d: Seq<u8>, m: MessageModel)
    requires
        decodable(d),
        spec_decode(d) == Some(m),
    ensures
        m.kind matches CommandModel::Ping(nonce) ==> {
            &&& root_holds(d, m.magic, COMMAND_PING)
            &&& spec_field_u64(d, command_table_loc(d), HEARTBEAT_NONCE as int) == Some(nonce)
        },
        m.kind matches CommandModel::Pong(nonce) ==> {
            &&& root_holds(d, m.magic, COMMAND_PONG)
            &&& spec_field_u64(d, command_table_loc(d), HEARTBEAT_NONCE as int) == Some(nonce)
        },
{
}

/// Where the object that field `slot` of the table at `loc` refers to
/// starts.
pub open spec fn target_of(d: Seq<u8>, loc: int, slot: int) -> int {
    spec_field_ref(d, loc, slot)->Some_0->Some_0
}

/// Field `slot` of the table at `loc` refers to an object.
pub open spec fn refers(d: Seq<u8>, loc: int, slot: int) -> bool {
    spec_field_ref(d, loc, slot) matches Some(Some(_))
}

/// The address table at `loc` holds `a`: the IP kind's tag, the port, and,
/// in the table its `ip` field refers to, the IPv4 address in slot
/// `IPV4_IP`, or the four words of the IPv6 address in slots `IPV6_IP0` to
/// `IPV6_IP3`, in that order.
pub open spec fn address_stored(d: Seq<u8>, loc: int, a: Address) -> bool {
    let t = target_of(d, loc, ADDRESS_IP as int);
    &&& spec_field_u16(d, loc, ADDRESS_PORT as int) == Some(a.port)
    &&& refers(d, loc, ADDRESS_IP as int)
    &&& match a.ip {
        IpAddress::Ipv4 { ip } => {
            &&& spec_field_u8(d, loc, ADDRESS_IP_TYPE as int) == Some(IP_ADDRESS_IPV4)
            &&& spec_field_u32(d, t, IPV4_IP as int) == Some(ip)
        },
        IpAddress::Ipv6 { ip0, ip1, ip2, ip3 } => {
            &&& spec_field_u8(d, loc, ADDRESS_IP_TYPE as int) == Some(IP_ADDRESS_IPV6)
            &&& spec_field_u32(d, t, IPV6_IP0 as int) == Some(ip0)
            &&& spec_field_u32(d, t, IPV6_IP1 as int) == Some(ip1)
            &&& spec_field_u32(d, t, IPV6_IP2 as int) == Some(ip2)
            &&& spec_field_u32(d, t, IPV6_IP3 as int) == Some(ip3)
        },
    }
}

/// The hash table at `loc` names SHA-256 and holds the digest of `h` in the
/// byte vector its `bytes` field refers to.
pub open spec fn hash_stored(d: Seq<u8>, loc: int, h: chain::Hash) -> bool {
    &&& spec_field_u8(d, loc, HASH_TYPE as int) == Some(HASH_TYPE_SHA256)
    &&& refers(d, loc, HASH_BYTES as int)
    &&& spec_bytes(d, target_of(d, loc, HASH_BYTES as int)) matches Some(bytes)
    &&& spec_sha256_hash(bytes) == h
}

/// The tag the schema gives each kind of inventory entry.
pub open spec fn inv_tag_of(x: InvVector) -> u8 {
    match x {
        InvVector::Error(_) => INV_TYPE_ERROR,
        InvVector::Tx(_) => INV_TYPE_TX,
        InvVector::Block(_) => INV_TYPE_BLOCK,
        InvVector::DataRequest(_) => INV_TYPE_DATA_REQUEST,
        InvVector::DataResult(_) => INV_TYPE_DATA_RESULT,
    }
}

/// The hash an inventory entry names.
pub open spec fn inv_hash_of(x: InvVector) -> chain::Hash {
    match x {
        InvVector::Error(h) => h,
        InvVector::Tx(h) => h,
        InvVector::Block(h) => h,
        InvVector::DataRequest(h) => h,
        InvVector::DataResult(h) => h,
    }
}

/// The inventory entry table at `loc` holds `x`: its kind's tag in slot
/// `INV_VECTOR_TYPE` and its hash in the hash table its `hash` field refers
/// to.
pub open spec fn inv_vector_stored(d: Seq<u8>, loc: int, x: InvVector) -> bool {
    &&& spec_field_u8(d, loc, INV_VECTOR_TYPE as int) == Some(inv_tag_of(x))
    &&& refers(d, loc, INV_VECTOR_HASH as int)
    &&& hash_stored(d, target_of(d, loc, INV_VECTOR_HASH as int), inv_hash_of(x))
}

/// The checkpoint beacon table at `loc` holds `c`.
pub open spec fn beacon_stored(d: Seq<u8>, loc: int, c: CheckpointBeacon) -> bool {
    &&& spec_field_u32(d, loc, BEACON_CHECKPOINT as int) == Some(c.checkpoint)
    &&& refers(d, loc, BEACON_HASH_PREV_BLOCK as int)
    &&& hash_stored(d, target_of(d, loc, BEACON_HASH_PREV_BLOCK as int), c.hash_prev_block)
}

/// Reading a list of `n` tables gives, in order, what `f` reads at each
/// element the vector refers to.
pub proof fn lemma_list_elems<T>(b: Seq<u8>, v: int, n: nat, f: spec_fn(Seq<u8>, int) -> Option<T>, s: Seq<T>)
    requires
        spec_read_list(b, v, n, f) == Some(s),
    ensures
        s.len() == n,
        forall|i: int| 0 <= i < n ==> (#[trigger] spec_vec_elem(b, v, i) matches Some(e) && f(b, e) == Some(s[i])),
    decreases n,
{
    if n > 0 {
        let prev = spec_read_list(b, v, (n - 1) as nat, f)->Some_0;
        lemma_list_elems(b, v, (n - 1) as nat, f, prev);
        assert(s == prev.push(s[n - 1]));
        assert forall|i: int| 0 <= i < n implies (#[trigger] spec_vec_elem(b, v, i) matches Some(e) && f(b, e) == Some(s[i])) by {
            if i < n - 1 {
                assert(s[i] == prev[i]);
            }
        }
    }
}

/// Reading a hash table that converts gives the hash of the bytes stored
/// under its `bytes` field.
pub proof fn law_hash_slots(d: Seq<u8>, loc: int, t: protocol::HashModel)
    requires
        spec_read_hash(d, loc) == Some(t),
    ensures
        hash_stored(d, loc, spec_sha256_hash(t.bytes)),
{
}

/// Reading a beacon table gives the checkpoint from slot
/// `BEACON_CHECKPOINT` and the previous block's hash from the hash table
/// its `hash_prev_block` field refers to.
pub proof fn law_beacon_slots(d: Seq<u8>, loc: int, t: protocol::CheckpointBeaconModel)
    requires
        spec_read_beacon(d, loc) == Some(t),
    ensures
        beacon_stored(d, loc, CheckpointBeacon { checkpoint: t.checkpoint, hash_prev_block: spec_sha256_hash(t.hash_prev_block.bytes) }),
{
}

/// An address table that reads and converts to `a` holds `a` slot by slot.
pub proof fn law_address_slots(d: Seq<u8>, loc: int, a: Address)
    requires
        spec_read_address(d, loc) matches Some(t) && spec_create_address(t) == Some(a),
    ensures
        address_stored(d, loc, a),
{
}

/// Element `j` of the vector of address tables at `v` holds `a`.
pub open spec fn peer_stored_at(d: Seq<u8>, v: int, j: int, a: Address) -> bool {
    &&& 0 <= j
    &&& (spec_vec_len(d, v) matches Some(n) && j < n)
    &&& (spec_vec_elem(d, v, j) matches Some(e) && address_stored(d, e, a))
}

/// Some element of the vector of address tables at `v` holds `a`.
pub open spec fn peer_stored(d: Seq<u8>, v: int, a: Address) -> bool {
    exists|j: int| #[trigger] peer_stored_at(d, v, j, a)
}

/// Some table of `s` converts to `a`.
pub open spec fn converted_from(s: Seq<protocol::Address>, a: Address) -> bool {
    exists|j: int| 0 <= j < s.len() && #[trigger] spec_create_address(s[j]) == Some(a)
}

/// Every address that a list of address tables converts to comes from one
/// of the tables.
proof fn lemma_collected_from(s: Seq<protocol::Address>)
    ensures
        forall|i: int| 0 <= i < spec_collect_addresses(s).len() ==> #[trigger] converted_from(s, spec_collect_addresses(s)[i]),
    decreases s.len(),
{
    if s.len() > 0 {
        let rest = s.drop_last();
        lemma_collected_from(rest);
        let c = spec_collect_addresses(s);
        let cr = spec_collect_addresses(rest);
        assert forall|i: int| 0 <= i < c.len() implies #[trigger] converted_from(s, c[i]) by {
            if i < cr.len() {
                assert(converted_from(rest, cr[i]));
                let j = choose|j: int| 0 <= j < rest.len() && #[trigger] spec_create_address(rest[j]) == Some(cr[i]);
                assert(s[j] == rest[j]);
                assert(c[i] == cr[i]);
                assert(spec_create_address(s[j]) == Some(c[i]));
            } else {
                assert(spec_create_address(s[s.len() - 1]) == Some(c[i]));
            }
        }
    }
}

/// A peers message is stored under the command type `COMMAND_PEERS`, and
/// each of its addresses is held, slot by slot, by an address table of the
/// vector that the peers table's `peers` field refers to.
#[verifier::spinoff_prover]
#[verifier::rlimit(100)]
pub proof fn law_peers_slots(d: Seq<u8>, m: MessageModel)
    requires
        decodable(d),
        spec_decode(d) == Some(m),
    ensures
        m.kind matches CommandModel::Peers(peers) ==> {
            let c = command_table_loc(d);
            let v = target_of(d, c, PEERS_PEERS as int);
            &&& root_holds(d, m.magic, COMMAND_PEERS)
            &&& refers(d, c, PEERS_PEERS as int)
            &&& forall|i: int| 0 <= i < peers.len() ==> #[trigger] peer_stored(d, v, peers[i])
        },
{
    if let CommandModel::Peers(peers) = m.kind {
        let c = command_table_loc(d);
        let v = target_of(d, c, PEERS_PEERS as int);
        let n = spec_vec_len(d, v)->Some_0;
        let tables = spec_read_list(d, v, n as nat, address_reader())->Some_0;
        lemma_list_elems(d, v, n as nat, address_reader(), tables);
        lemma_collected_from(tables);
        assert(peers == spec_collect_addresses(tables));
        assert forall|i: int| 0 <= i < peers.len() implies #[trigger] peer_stored(d, v, peers[i]) by {
            assert(converted_from(tables, peers[i]));
            let j = choose|j: int| 0 <= j < tables.len() && #[trigger] spec_create_address(tables[j]) == Some(peers[i]);
            let e = spec_vec_elem(d, v, j)->Some_0;
            law_address_slots(d, e, peers[i]);
            assert(peer_stored_at(d, v, j, peers[i]));
        }
    }
}

/// A version handshake is stored under the command type `COMMAND_VERSION`,
/// with each field in its own slot of the version table: the version, the
/// timestamp, the capabilities, the last epoch, the genesis and the nonce,
/// the user agent in the string its field refers to, and the sender's and
/// the receiver's addresses in the tables their fields refer to.
#[verifier::spinoff_prover]
#[verifier::rlimit(100)]
pub proof fn law_version_slots(d: Seq<u8>, m: MessageModel)
    requires
        decodable(d),
        spec_decode(d) == Some(m),
    ensures
        m.kind matches CommandModel::Version(v) ==> {
            let c = command_table_loc(d);
            &&& root_holds(d, m.magic, COMMAND_VERSION)
            &&& spec_field_u32(d, c, VERSION_VERSION as int) == Some(v.version)
            &&& spec_field_i64(d, c, VERSION_TIMESTAMP as int) == Some(v.timestamp)
            &&& spec_field_u64(d, c, VERSION_CAPABILITIES as int) == Some(v.capabilities)
            &&& spec_field_u32(d, c, VERSION_LAST_EPOCH as int) == Some(v.last_epoch)
            &&& spec_field_u64(d, c, VERSION_GENESIS as int) == Some(v.genesis)
            &&& spec_field_u64(d, c, VERSION_NONCE as int) == Some(v.nonce)
            &&& refers(d, c, VERSION_USER_AGENT as int)
            &&& spec_string(d, target_of(d, c, VERSION_USER_AGENT as int)) == Some(v.user_agent)
            &&& refers(d, c, VERSION_SENDER_ADDRESS as int)
            &&& address_stored(d, target_of(d, c, VERSION_SENDER_ADDRESS as int), v.sender_address)
            &&& refers(d, c, VERSION_RECEIVER_ADDRESS as int)
            &&& address_stored(d, target_of(d, c, VERSION_RECEIVER_ADDRESS as int), v.receiver_address)
        },
{
    if let CommandModel::Version(v) = m.kind {
        let t = spec_read_message(d)->Some_0;
        let c = command_table_loc(d);
        assert(t.command is Version);
        let vt = spec_read_version(d, c)->Some_0;
        assert(t.command == protocol::CommandModel::Version(Some(vt)));
        assert(spec_create_version(vt) == Some(v));
        lemma_version_table_slots(d, c, vt, v);
    }
}

/// A version table holds, slot by slot, the version handshake it reads
/// and converts to.
#[verifier::spinoff_prover]
#[verifier::rlimit(100)]
proof fn lemma_version_table_slots(d: Seq<u8>, c: int, vt: protocol::VersionModel, v: VersionModel)
    requires
        spec_read_version(d, c) == Some(vt),
        spec_create_version(vt) == Some(v),
    ensures
        spec_field_u32(d, c, VERSION_VERSION as int) == Some(v.version),
        spec_field_i64(d, c, VERSION_TIMESTAMP as int) == Some(v.timestamp),
        spec_field_u64(d, c, VERSION_CAPABILITIES as int) == Some(v.capabilities),
        spec_field_u32(d, c, VERSION_LAST_EPOCH as int) == Some(v.last_epoch),
        spec_field_u64(d, c, VERSION_GENESIS as int) == Some(v.genesis),
        spec_field_u64(d, c, VERSION_NONCE as int) == Some(v.nonce),
        refers(d, c, VERSION_USER_AGENT as int),
        spec_string(d, target_of(d, c, VERSION_USER_AGENT as int)) == Some(v.user_agent),
        refers(d, c, VERSION_SENDER_ADDRESS as int),
        address_stored(d, target_of(d, c, VERSION_SENDER_ADDRESS as int), v.sender_address),
        refers(d, c, VERSION_RECEIVER_ADDRESS as int),
        address_stored(d, target_of(d, c, VERSION_RECEIVER_ADDRESS as int), v.receiver_address),
{
    let s = vt.sender_address->Some_0;
    let r = vt.receiver_address->Some_0;
    assert(spec_create_address(s) == Some(v.sender_address));
    assert(spec_create_address(r) == Some(v.receiver_address));
    assert(protocol::both_addresses(vt.sender_address, vt.receiver_address));
    law_address_slots(d, target_of(d, c, VERSION_SENDER_ADDRESS as int), v.sender_address);
    law_address_slots(d, target_of(d, c, VERSION_RECEIVER_ADDRESS as int), v.receiver_address);
}

/// An inventory entry table that reads and converts to `x` holds `x`:
/// its kind's tag, as the schema numbers the kinds, and its hash.
pub proof fn law_inv_vector_slots(d: Seq<u8>, loc: int, t: protocol::InvVectorModel)
    requires
        spec_read_inv_vector(d, loc) == Some(t),
    ensures
        inv_vector_stored(d, loc, spec_create_inv_vector(t)),
{
    reveal(spec_read_inv_vector);
}

/// The entries `s` are stored in order, each slot by slot, in the vector
/// that the `inventory` field of the table at `c` refers to.
pub open spec fn inventory_stored(d: Seq<u8>, c: int, s: Seq<InvVector>) -> bool {
    let v = target_of(d, c, INVENTORY_INVENTORY as int);
    &&& refers(d, c, INVENTORY_INVENTORY as int)
    &&& spec_vec_len(d, v) == Some(s.len() as int)
    &&& forall|i: int| 0 <= i < s.len() ==> (#[trigger] spec_vec_elem(d, v, i) matches Some(e)
        && inv_vector_stored(d, e, s[i]))
}

/// An inv message is stored under the command type `COMMAND_INV`, with its
/// entries, in order, in the vector its table's `inventory` field refers
/// to.
#[verifier::spinoff_prover]
#[verifier::rlimit(100)]
pub proof fn law_inv_slots(d: Seq<u8>, m: MessageModel)
    requires
        decodable(d),
        spec_decode(d) == Some(m),
    ensures
        m.kind matches CommandModel::Inv(s) ==> {
            &&& root_holds(d, m.magic, COMMAND_INV)
            &&& inventory_stored(d, command_table_loc(d), s)
        },
{
    if let CommandModel::Inv(s) = m.kind {
        let t = spec_read_message(d)->Some_0;
        let c = command_table_loc(d);
        assert(t.command is Inv);
        let it = spec_read_inventory(d, c)->Some_0;
        assert(t.command == protocol::CommandModel::Inv(Some(it)));
        lemma_inventory_table_slots(d, c, it);
    }
}

/// A get-data message is stored under the command type `COMMAND_GET_DATA`,
/// with its entries, in order, in the vector its table's `inventory` field
/// refers to.
#[verifier::spinoff_prover]
#[verifier::rlimit(100)]
pub proof fn law_get_data_slots(d: Seq<u8>, m: MessageModel)
    requires
        decodable(d),
        spec_decode(d) == Some(m),
    ensures
        m.kind matches CommandModel::GetData(s) ==> {
            &&& root_holds(d, m.magic, COMMAND_GET_DATA)
            &&& inventory_stored(d, command_table_loc(d), s)
        },
{
    if let CommandModel::GetData(s) = m.kind {
        let t = spec_read_message(d)->Some_0;
        let c = command_table_loc(d);
        assert(t.command is GetData);
        let it = spec_read_inventory(d, c)->Some_0;
        assert(t.command == protocol::CommandModel::GetData(Some(it)));
        lemma_inventory_table_slots(d, c, it);
    }
}

/// An inventory table holds, in order, the entries it reads and converts
/// to.
#[verifier::spinoff_prover]
#[verifier::rlimit(100)]
proof fn lemma_inventory_table_slots(d: Seq<u8>, c: int, it: protocol::InventoryModel)
    requires
        spec_read_inventory(d, c) == Some(it),
    ensures
        inventory_stored(d, c, spec_create_inventory(it.inventory)),
{
    let s = spec_create_inventory(it.inventory);
    let v = target_of(d, c, INVENTORY_INVENTORY as int);
    let n = spec_vec_len(d, v)->Some_0;
    let tables = spec_read_list(d, v, n as nat, inv_vector_reader())->Some_0;
    lemma_list_elems(d, v, n as nat, inv_vector_reader(), tables);
    assert(tables == it.inventory);
    assert forall|i: int| 0 <= i < s.len() implies (#[trigger] spec_vec_elem(d, v, i) matches Some(e)
        && inv_vector_stored(d, e, s[i])) by {
        let e = spec_vec_elem(d, v, i)->Some_0;
        law_inv_vector_slots(d, e, tables[i]);
    }
}

/// A block is stored under the command type `COMMAND_BLOCK`: its header
/// table, which its `header` field refers to, holds the version, the beacon
/// (whose hash is the previous block's) in the beacon table its `beacon`
/// field refers to, the merkle root in the hash table its
/// `hash_merkle_root` field refers to, and the influence in the proof
/// table; the block table holds the transaction count and refers to a
/// vector of one entry per transaction.
#[verifier::spinoff_prover]
#[verifier::rlimit(100)]
pub proof fn law_block_slots(d: Seq<u8>, m: MessageModel)
    requires
        decodable(d),
        spec_decode(d) == Some(m),
    ensures
        m.kind matches CommandModel::Block(b) ==> {
            let c = command_table_loc(d);
            let h = target_of(d, c, BLOCK_HEADER as int);
            let bh = b.header.block_header;
            &&& root_holds(d, m.magic, COMMAND_BLOCK)
            &&& refers(d, c, BLOCK_HEADER as int)
            &&& spec_field_u32(d, h, HEADER_VERSION as int) == Some(bh.version)
            &&& refers(d, h, HEADER_BEACON as int)
            &&& beacon_stored(d, target_of(d, h, HEADER_BEACON as int), bh.beacon)
            &&& refers(d, h, HEADER_HASH_MERKLE_ROOT as int)
            &&& hash_stored(d, target_of(d, h, HEADER_HASH_MERKLE_ROOT as int), bh.hash_merkle_root)
            &&& refers(d, h, HEADER_PROOF as int)
            &&& spec_field_u64(d, target_of(d, h, HEADER_PROOF as int), PROOF_INFLUENCE as int) == Some(b.header.proof.influence)
            &&& spec_field_u32(d, c, BLOCK_TXN_COUNT as int) == Some(b.txn_count)
            &&& refers(d, c, BLOCK_TXNS as int)
            &&& spec_vec_len(d, target_of(d, c, BLOCK_TXNS as int)) == Some(b.txns.len() as int)
        },
{
    if let CommandModel::Block(b) = m.kind {
        let t = spec_read_message(d)->Some_0;
        let c = command_table_loc(d);
        assert(t.command is Block);
        let bt = spec_read_block(d, c)->Some_0;
        assert(t.command == protocol::CommandModel::Block(Some(bt)));
        assert(b == spec_create_block(bt));
        lemma_block_table_slots(d, c, bt);
    }
}

/// A block table holds, slot by slot, the block it reads as.
#[verifier::spinoff_prover]
#[verifier::rlimit(100)]
proof fn lemma_block_table_slots(d: Seq<u8>, c: int, bt: protocol::BlockModel)
    requires
        spec_read_block(d, c) == Some(bt),
    ensures
        ({
            let b = spec_create_block(bt);
            let h = target_of(d, c, BLOCK_HEADER as int);
            let bh = b.header.block_header;
            &&& refers(d, c, BLOCK_HEADER as int)
            &&& spec_field_u32(d, h, HEADER_VERSION as int) == Some(bh.version)
            &&& refers(d, h, HEADER_BEACON as int)
            &&& beacon_stored(d, target_of(d, h, HEADER_BEACON as int), bh.beacon)
            &&& refers(d, h, HEADER_HASH_MERKLE_ROOT as int)
            &&& hash_stored(d, target_of(d, h, HEADER_HASH_MERKLE_ROOT as int), bh.hash_merkle_root)
            &&& refers(d, h, HEADER_PROOF as int)
            &&& spec_field_u64(d, target_of(d, h, HEADER_PROOF as int), PROOF_INFLUENCE as int) == Some(b.header.proof.influence)
            &&& spec_field_u32(d, c, BLOCK_TXN_COUNT as int) == Some(b.txn_count)
            &&& refers(d, c, BLOCK_TXNS as int)
            &&& spec_vec_len(d, target_of(d, c, BLOCK_TXNS as int)) == Some(b.txns.len() as int)
        }),
{
    let h = target_of(d, c, BLOCK_HEADER as int);
    let ht = spec_read_header(d, h)->Some_0;
    assert(bt.header == ht);
    law_beacon_slots(d, target_of(d, h, HEADER_BEACON as int), ht.beacon);
    law_hash_slots(d, target_of(d, h, HEADER_HASH_MERKLE_ROOT as int), ht.hash_merkle_root);
    let v = target_of(d, c, BLOCK_TXNS as int);
    let n = spec_vec_len(d, v)->Some_0;
    protocol::lemma_read_list_len(d, v, n as nat, protocol::txn_reader());
}

/// A get-blocks message is stored under the command type
/// `COMMAND_GET_BLOCKS`, with its checkpoint in the beacon table its
/// table's `highest_block_checkpoint` field refers to.
#[verifier::spinoff_prover]
#[verifier::rlimit(100)]
pub proof fn law_get_blocks_slots(d: Seq<u8>, m: MessageModel)
    requires
        decodable(d),
        spec_decode(d) == Some(m),
    ensures
        m.kind matches CommandModel::GetBlocks(beacon) ==> {
            let c = command_table_loc(d);
            &&& root_holds(d, m.magic, COMMAND_GET_BLOCKS)
            &&& refers(d, c, GET_BLOCKS_HIGHEST_BLOCK_CHECKPOINT as int)
            &&& beacon_stored(d, target_of(d, c, GET_BLOCKS_HIGHEST_BLOCK_CHECKPOINT as int), beacon)
        },
{
}

/// The root table of `d` holds `magic` in its magic slot and `tag` in its
/// command-type slot.
pub open spec fn root_tagged(d: Seq<u8>, magic: u16, tag: u8) -> bool {
    &&& spec_root(d) matches Some(r)
    &&& spec_field_u16(d, r, MESSAGE_MAGIC as int) == Some(magic)
    &&& spec_field_u8(d, r, MESSAGE_COMMAND_TYPE as int) == Some(tag)
}

/// A get-peers request is stored under the command type
/// `COMMAND_GET_PEERS`, a verack under `COMMAND_VERACK`.
#[verifier::spinoff_prover]
#[verifier::rlimit(100)]
pub proof fn law_bare_command_slots(d: Seq<u8>, m: MessageModel)
    requires
        decodable(d),
        spec_decode(d) == Some(m),
    ensures
        m.kind is GetPeers ==> root_tagged(d, m.magic, COMMAND_GET_PEERS),
        m.kind is Verack ==> root_tagged(d, m.magic, COMMAND_VERACK),
{
}

/// The signature table at `loc` holds `sig`: the byte vector its `r` field
/// refers to starts with the 32 bytes of `sig.r`, and the one its `s` field
/// refers to starts with the 32 bytes of `sig.s` followed by `sig.v`.
pub open spec fn signature_stored(d: Seq<u8>, loc: int, sig: chain::Secp256k1Signature) -> bool {
    &&& refers(d, loc, SIGNATURE_R as int)
    &&& refers(d, loc, SIGNATURE_S as int)
    &&& spec_bytes(d, target_of(d, loc, SIGNATURE_R as int)) matches Some(r)
    &&& spec_bytes(d, target_of(d, loc, SIGNATURE_S as int)) matches Some(s)
    &&& r.len() >= 32
    &&& s.len() >= 33
    &&& spec_array32(r.subrange(0, 32)) == sig.r
    &&& spec_array32(s.subrange(0, 32)) == sig.s
    &&& s[32] == sig.v
}

/// A block's leadership proof: a block signed with secp256k1 has the
/// signature kind `SIGNATURE_SECP256K1` in its proof table and the
/// signature in the table its `block_sig` field refers to; a block read
/// without a signature has no secp256k1 signature stored there.
#[verifier::spinoff_prover]
#[verifier::rlimit(100)]
pub proof fn law_block_signature_slots(d: Seq<u8>, m: MessageModel)
    requires
        decodable(d),
        spec_decode(d) == Some(m),
    ensures
        m.kind matches CommandModel::Block(b) ==> {
            let h = target_of(d, command_table_loc(d), BLOCK_HEADER as int);
            let p = target_of(d, h, HEADER_PROOF as int);
            match b.header.proof.block_sig {
                Some(Signature::Secp256k1(sig)) => {
                    &&& spec_field_u8(d, p, PROOF_BLOCK_SIG_TYPE as int) == Some(SIGNATURE_SECP256K1)
                    &&& refers(d, p, PROOF_BLOCK_SIG as int)
                    &&& signature_stored(d, target_of(d, p, PROOF_BLOCK_SIG as int), sig)
                },
                None => {
                    spec_field_u8(d, p, PROOF_BLOCK_SIG_TYPE as int) == Some(SIGNATURE_SECP256K1)
                        ==> spec_field_ref(d, p, PROOF_BLOCK_SIG as int) == Some(None::<int>)
                },
            }
        },
{
    if let CommandModel::Block(b) = m.kind {
        let t = spec_read_message(d)->Some_0;
        let c = command_table_loc(d);
        assert(t.command is Block);
        let bt = spec_read_block(d, c)->Some_0;
        assert(t.command == protocol::CommandModel::Block(Some(bt)));
        assert(b == spec_create_block(bt));
        let h = target_of(d, c, BLOCK_HEADER as int);
        let ht = spec_read_header(d, h)->Some_0;
        assert(bt.header == ht);
        let p = target_of(d, h, HEADER_PROOF as int);
        assert(spec_read_proof(d, p) == Some(ht.proof));
    }
}

} // verus!
