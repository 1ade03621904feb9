//! From the tables of a received buffer to protocol messages.
use vstd::prelude::*;

use crate::chain::{
    lemma_array32, spec_array32, spec_sha256_hash, Block, BlockHeader, BlockHeaderWithProof,
    BlockModel, CheckpointBeacon, InvVector, LeadershipProof, Secp256k1Signature, Signature,
    Transaction,
};
use crate::chain;
use crate::protocol;
use crate::protocol::{
    read_message, spec_read_message, COMMAND_BLOCK, COMMAND_GET_BLOCKS, COMMAND_GET_DATA,
    COMMAND_INV, COMMAND_PEERS, COMMAND_PING, COMMAND_PONG, COMMAND_VERSION, HASH_TYPE_SHA256,
    INV_TYPE_BLOCK, INV_TYPE_DATA_REQUEST, INV_TYPE_DATA_RESULT, INV_TYPE_ERROR, INV_TYPE_TX,
    IP_ADDRESS_IPV4, IP_ADDRESS_IPV6, SIGNATURE_SECP256K1,
};
use crate::types::{
    Address, Command, CommandModel, GetBlocks, GetData, GetPeers, Inv, IpAddress, Message,
    MessageModel, Peers, Ping, Pong, Verack, Version, VersionModel,
};

verus! {

broadcast use vstd::string::to_string_from_display_ensures_for_str;

/// Conversion from a value that may not stand for a `Self`.
pub trait TryFrom<T>: Sized {
    type Error;

    /// The values that the conversion is defined on.
    spec fn convertible(value: T) -> bool;

    /// What converting `value` gives.
    spec fn converts_to(value: T, r: Result<Self, Self::Error>) -> bool;

    fn try_from(value: T) -> (r: Result<Self, Self::Error>)
        requires
            Self::convertible(value),
        ensures
            Self::converts_to(value, r),
    ;
}

/// A get-blocks command and the network's magic number.
#[derive(Copy, Clone, Debug)]
pub struct GetBlocksCommandArgs {
    pub highest_block_checkpoint: CheckpointBeacon,
    pub magic: u16,
}

/// A command without arguments, and the network's magic number.
#[derive(Copy, Clone, Debug)]
pub struct EmptyCommandArgs {
    pub magic: u16,
}

/// A received peers table and the network's magic number.
pub struct PeersWitnetArgs {
    pub magic: u16,
    pub peers: protocol::Peers,
}

/// A heartbeat nonce and the network's magic number.
#[derive(Copy, Clone, Debug)]
pub struct HeartbeatCommandsArgs {
    pub magic: u16,
    pub nonce: u64,
}

/// The fields of a version handshake and the network's magic number.
#[derive(Copy, Clone, Debug)]
pub struct VersionCommandArgs<'a> {
    pub magic: u16,
    pub capabilities: u64,
    pub genesis: u64,
    pub last_epoch: u32,
    pub nonce: u64,
    pub receiver_address: &'a Address,
    pub sender_address: &'a Address,
    pub timestamp: i64,
    pub user_agent: &'a str,
    pub version: u32,
}

/// A received inventory table and the network's magic number.
pub struct InvWitnetArgs {
    pub magic: u16,
    pub inventory: protocol::Inventory,
}

/// A received get-data table and the network's magic number.
pub struct GetDataWitnetArgs {
    pub magic: u16,
    pub inventory: protocol::Inventory,
}

// ---------------------------------------------------------------------------
// What each table stands for
// ---------------------------------------------------------------------------

/// The hash a hash table stands for.
pub open spec fn spec_create_hash(h: protocol::HashModel) -> chain::Hash {
    spec_sha256_hash(h.bytes)
}

/// A hash table can be converted: it names SHA-256 and holds 32 bytes.
pub open spec fn hash_convertible(h: protocol::HashModel) -> bool {
    h.type_ == HASH_TYPE_SHA256 && h.bytes.len() == 32
}

/// The inventory entry an inventory table entry stands for.
pub open spec fn spec_create_inv_vector(x: protocol::InvVectorModel) -> InvVector {
    let h = spec_create_hash(x.hash);
    if x.type_ == INV_TYPE_ERROR {
        InvVector::Error(h)
    } else if x.type_ == INV_TYPE_TX {
        InvVector::Tx(h)
    } else if x.type_ == INV_TYPE_BLOCK {
        InvVector::Block(h)
    } else if x.type_ == INV_TYPE_DATA_REQUEST {
        InvVector::DataRequest(h)
    } else {
        InvVector::DataResult(h)
    }
}

/// An inventory table entry can be converted.
pub open spec fn inv_vector_convertible(x: protocol::InvVectorModel) -> bool {
    x.type_ <= INV_TYPE_DATA_RESULT && hash_convertible(x.hash)
}

/// The inventory entries of an inventory table.
pub open spec fn spec_create_inventory(s: Seq<protocol::InvVectorModel>) -> Seq<InvVector> {
    s.map_values(|x: protocol::InvVectorModel| spec_create_inv_vector(x))
}

/// The address an address table stands for: none when its IP address is
/// of no known kind, or the union's value is missing.
pub open spec fn spec_create_address(a: protocol::Address) -> Option<Address> {
    if a.ip_type == IP_ADDRESS_IPV4 {
        match a.ip_as_ipv4 {
            Some(x) => Some(Address { ip: IpAddress::Ipv4 { ip: x.ip }, port: a.port }),
            None => None,
        }
    } else if a.ip_type == IP_ADDRESS_IPV6 {
        match a.ip_as_ipv6 {
            Some(x) => Some(
                Address {
                    ip: IpAddress::Ipv6 { ip0: x.ip0, ip1: x.ip1, ip2: x.ip2, ip3: x.ip3 },
                    port: a.port,
                },
            ),
            None => None,
        }
    } else {
        None
    }
}

/// The addresses that the address tables of `s` stand for, in order,
/// leaving out those that stand for none.
pub open spec fn spec_collect_addresses(s: Seq<protocol::Address>) -> Seq<Address>
    decreases s.len(),
{
    if s.len() == 0 {
        Seq::empty()
    } else {
        let rest = spec_collect_addresses(s.drop_last());
        match spec_create_address(s.last()) {
            Some(a) => rest.push(a),
            None => rest,
        }
    }
}

/// The checkpoint beacon a beacon table stands for.
pub open spec fn spec_create_beacon(c: protocol::CheckpointBeaconModel) -> CheckpointBeacon {
    CheckpointBeacon { checkpoint: c.checkpoint, hash_prev_block: spec_create_hash(c.hash_prev_block) }
}

/// The signature a signature table stands for: the first 32 bytes of `r`,
/// the first 32 bytes of `s`, and the byte after them as `v`.
pub open spec fn spec_create_signature(s: protocol::Secp256k1SignatureModel) -> Secp256k1Signature {
    Secp256k1Signature {
        r: spec_array32(s.r.subrange(0, 32)),
        s: spec_array32(s.s.subrange(0, 32)),
        v: s.s[32],
    }
}

/// The signature a leadership proof table carries: only a present
/// secp256k1 signature counts.
pub open spec fn spec_create_block_sig(p: protocol::LeadershipProofModel) -> Option<Signature> {
    if p.block_sig_type == SIGNATURE_SECP256K1 {
        match p.block_sig_as_secp256k1 {
            Some(s) => Some(Signature::Secp256k1(spec_create_signature(s))),
            None => None,
        }
    } else {
        None
    }
}

/// The block a block table stands for; it holds as many transactions as
/// the table's transaction vector.
pub open spec fn spec_create_block(b: protocol::BlockModel) -> BlockModel {
    BlockModel {
        header: BlockHeaderWithProof {
            block_header: BlockHeader {
                version: b.header.version,
                beacon: spec_create_beacon(b.header.beacon),
                hash_merkle_root: spec_create_hash(b.header.hash_merkle_root),
            },
            proof: LeadershipProof {
                block_sig: spec_create_block_sig(b.header.proof),
                influence: b.header.proof.influence,
            },
        },
        txn_count: b.txn_count,
        txns: Seq::new(b.txns_len, |i: int| Transaction),
    }
}

/// A block table can be converted: its hashes hold 32 bytes, and a
/// secp256k1 signature holds at least 32 bytes of `r` and 33 of `s`.
pub open spec fn block_convertible(b: protocol::BlockModel) -> bool {
    &&& hash_convertible(b.header.beacon.hash_prev_block)
    &&& hash_convertible(b.header.hash_merkle_root)
    &&& (b.header.proof.block_sig_type == SIGNATURE_SECP256K1 ==> (
    b.header.proof.block_sig_as_secp256k1 matches Some(s) ==> s.r.len() >= 32 && s.s.len() >= 33))
}

/// The version handshake a version table stands for: none unless both of
/// its addresses stand for one.
pub open spec fn spec_create_version(v: protocol::VersionModel) -> Option<VersionModel> {
    match (v.sender_address, v.receiver_address) {
        (Some(s), Some(r)) => match (spec_create_address(s), spec_create_address(r)) {
            (Some(sender_address), Some(receiver_address)) => Some(
                VersionModel {
                    version: v.version,
                    timestamp: v.timestamp,
                    capabilities: v.capabilities,
                    sender_address,
                    receiver_address,
                    user_agent: v.user_agent,
                    last_epoch: v.last_epoch,
                    genesis: v.genesis,
                    nonce: v.nonce,
                },
            ),
            _ => None,
        },
        _ => None,
    }
}

/// The message a message table stands for, or `None` where it stands for
/// none: no command, a command whose table is missing, peers without their
/// vector, or a version handshake without both addresses.
pub open spec fn spec_message_from_table(t: protocol::MessageModel) -> Option<MessageModel> {
    let kind: Option<CommandModel> = match t.command {
        protocol::CommandModel::NONE => None,
        protocol::CommandModel::GetBlocks(g) => match g {
            Some(g) => Some(CommandModel::GetBlocks(spec_create_beacon(g.highest_block_checkpoint))),
            None => None,
        },
        protocol::CommandModel::GetPeers => Some(CommandModel::GetPeers),
        protocol::CommandModel::Peers(p) => match p {
            Some(p) => match p.peers {
                Some(s) => Some(CommandModel::Peers(spec_collect_addresses(s))),
                None => None,
            },
            None => None,
        },
        protocol::CommandModel::Ping(p) => match p {
            Some(p) => Some(CommandModel::Ping(p.nonce)),
            None => None,
        },
        protocol::CommandModel::Pong(p) => match p {
            Some(p) => Some(CommandModel::Pong(p.nonce)),
            None => None,
        },
        protocol::CommandModel::Verack => Some(CommandModel::Verack),
        protocol::CommandModel::Version(v) => match v {
            Some(v) => match spec_create_version(v) {
                Some(x) => Some(CommandModel::Version(x)),
                None => None,
            },
            None => None,
        },
        protocol::CommandModel::Block(b) => match b {
            Some(b) => Some(CommandModel::Block(spec_create_block(b))),
            None => None,
        },
        protocol::CommandModel::Inv(i) => match i {
            Some(i) => Some(CommandModel::Inv(spec_create_inventory(i.inventory))),
            None => None,
        },
        protocol::CommandModel::GetData(i) => match i {
            Some(i) => Some(CommandModel::GetData(spec_create_inventory(i.inventory))),
            None => None,
        },
    };
    match kind {
        Some(kind) => Some(MessageModel { kind, magic: t.magic }),
        None => None,
    }
}

/// A message table can be converted without a fault: every hash that the
/// conversion copies holds 32 bytes, and so on (see [`block_convertible`]).
pub open spec fn table_convertible(t: protocol::MessageModel) -> bool {
    match t.command {
        protocol::CommandModel::GetBlocks(Some(g)) => hash_convertible(
            g.highest_block_checkpoint.hash_prev_block,
        ),
        protocol::CommandModel::Block(Some(b)) => block_convertible(b),
        protocol::CommandModel::Inv(Some(i)) => inventory_convertible(i),
        protocol::CommandModel::GetData(Some(i)) => inventory_convertible(i),
        _ => true,
    }
}

/// A buffer can be decoded: its message table can be read and converted.
pub open spec fn decodable(b: Seq<u8>) -> bool {
    spec_read_message(b) matches Some(t) && table_convertible(t)
}

/// What a decodable buffer decodes to: `None` where it stands for no message.
pub open spec fn spec_decode(b: Seq<u8>) -> Option<MessageModel> {
    spec_message_from_table(spec_read_message(b)->Some_0)
}

// ---------------------------------------------------------------------------
// Conversions
// ---------------------------------------------------------------------------

/// The 32 bytes of `bytes` from `start` on, as an array.
fn copy_32(bytes: &[u8], start: usize) -> (r: [u8; 32])
    requires
        start + 32 <= bytes@.len(),
    ensures
        r@ == bytes@.subrange(start as int, start + 32),
{
    let n = bytes.len();
    let mut a: [u8; 32] = [0; 32];
    let mut i: usize = 0;
    while i < 32
        invariant
            i <= 32,
            n == bytes@.len(),
            start + 32 <= n,
            forall|j: int| 0 <= j < i ==> #[trigger] a@[j] == bytes@[start + j],
        decreases 32 - i,
    {
        a[i] = bytes[start + i];
        i = i + 1;
    }
    assert(a@ =~= bytes@.subrange(start as int, start + 32));
    a
}

/// Create witnet ipv4 address
pub fn create_ipv4_address(ip: u32, port: u16) -> (r: Address)
    ensures
        r == (Address { ip: IpAddress::Ipv4 { ip }, port }),
{
    Address { ip: IpAddress::Ipv4 { ip }, port }
}

/// Create witnet ipv6 address
pub fn create_ipv6_address(ip0: u32, ip1: u32, ip2: u32, ip3: u32, port: u16) -> (r: Address)
    ensures
        r == (Address { ip: IpAddress::Ipv6 { ip0, ip1, ip2, ip3 }, port }),
{
    Address { ip: IpAddress::Ipv6 { ip0, ip1, ip2, ip3 }, port }
}

/// Create witnet ip address from an address table
pub fn create_address(address: protocol::Address) -> (r: Option<Address>)
    ensures
        r == spec_create_address(address),
{
    if address.ip_type == IP_ADDRESS_IPV4 {
        match address.ip_as_ipv4 {
            Some(ipv4) => Some(create_ipv4_address(ipv4.ip, address.port)),
            None => None,
        }
    } else if address.ip_type == IP_ADDRESS_IPV6 {
        match address.ip_as_ipv6 {
            Some(hextets) => Some(
                create_ipv6_address(hextets.ip0, hextets.ip1, hextets.ip2, hextets.ip3, address.port),
            ),
            None => None,
        }
    } else {
        None
    }
}

/// Create a witnet's hash from a hash table
pub fn create_hash(hash: &protocol::Hash) -> (r: chain::Hash)
    requires
        hash_convertible(hash@),
    ensures
        r == spec_create_hash(hash@),
{
    let hash_bytes = copy_32(hash.bytes.as_slice(), 0);
    proof {
        assert(hash.bytes@.subrange(0, 32) =~= hash.bytes@);
        lemma_array32(hash_bytes);
    }
    chain::Hash::SHA256(hash_bytes)
}

/// Create a witnet's inv vector from an inventory table entry
pub fn create_inv_vector(inv_vector: &protocol::InvVector) -> (r: InvVector)
    requires
        inv_vector_convertible(inv_vector@),
    ensures
        r == spec_create_inv_vector(inv_vector@),
{
    let hash = create_hash(&inv_vector.hash);
    let t = inv_vector.type_;
    if t == INV_TYPE_ERROR {
        InvVector::Error(hash)
    } else if t == INV_TYPE_TX {
        InvVector::Tx(hash)
    } else if t == INV_TYPE_BLOCK {
        InvVector::Block(hash)
    } else if t == INV_TYPE_DATA_REQUEST {
        InvVector::DataRequest(hash)
    } else {
        InvVector::DataResult(hash)
    }
}

/// The inventory entries of an inventory table, in order.
fn create_inventory(inventory: &protocol::Inventory) -> (r: Vec<InvVector>)
    requires
        forall|j: int|
            0 <= j < inventory@.inventory.len() ==> #[trigger] inv_vector_convertible(
                inventory@.inventory[j],
            ),
    ensures
        r@ == spec_create_inventory(inventory@.inventory),
{
    let len = inventory.inventory.len();
    let mut inv_vectors: Vec<InvVector> = Vec::new();
    let mut i: usize = 0;
    while i < len
        invariant
            i <= len,
            len == inventory.inventory@.len(),
            inventory@.inventory.len() == len,
            forall|j: int|
                0 <= j < inventory@.inventory.len() ==> #[trigger] inv_vector_convertible(
                    inventory@.inventory[j],
                ),
            inv_vectors@.len() == i,
            forall|j: int|
                0 <= j < i ==> #[trigger] inv_vectors@[j] == spec_create_inv_vector(
                    inventory@.inventory[j],
                ),
        decreases len - i,
    {
        assert(inventory@.inventory[i as int] == inventory.inventory@[i as int]@);
        let inv_vector = create_inv_vector(&inventory.inventory[i]);
        inv_vectors.push(inv_vector);
        i = i + 1;
    }
    assert(inv_vectors@ =~= spec_create_inventory(inventory@.inventory));
    inv_vectors
}

/// Create a witnet's inv message from an inventory table
pub fn create_inv_message(inv_args: InvWitnetArgs) -> (r: Message)
    requires
        forall|j: int|
            0 <= j < inv_args.inventory@.inventory.len() ==> #[trigger] inv_vector_convertible(
                inv_args.inventory@.inventory[j],
            ),
    ensures
        r@ == (MessageModel {
            kind: CommandModel::Inv(spec_create_inventory(inv_args.inventory@.inventory)),
            magic: inv_args.magic,
        }),
{
    let inv_vectors = create_inventory(&inv_args.inventory);
    Message { magic: inv_args.magic, kind: Command::Inv(Inv { inventory: inv_vectors }) }
}

/// Create a witnet's get-data message from a get-data table
pub fn create_get_data_message(get_data_args: GetDataWitnetArgs) -> (r: Message)
    requires
        forall|j: int|
            0 <= j < get_data_args.inventory@.inventory.len() ==> #[trigger] inv_vector_convertible(
                get_data_args.inventory@.inventory[j],
            ),
    ensures
        r@ == (MessageModel {
            kind: CommandModel::GetData(spec_create_inventory(get_data_args.inventory@.inventory)),
            magic: get_data_args.magic,
        }),
{
    let inv_vectors = create_inventory(&get_data_args.inventory);
    Message {
        magic: get_data_args.magic,
        kind: Command::GetData(GetData { inventory: inv_vectors }),
    }
}

/// Create a witnet get-blocks message
pub fn create_get_blocks_message(get_blocks_args: GetBlocksCommandArgs) -> (r: Message)
    ensures
        r@ == (MessageModel {
            kind: CommandModel::GetBlocks(get_blocks_args.highest_block_checkpoint),
            magic: get_blocks_args.magic,
        }),
{
    Message {
        kind: Command::GetBlocks(
            GetBlocks {
                highest_block_checkpoint: CheckpointBeacon {
                    checkpoint: get_blocks_args.highest_block_checkpoint.checkpoint,
                    hash_prev_block: get_blocks_args.highest_block_checkpoint.hash_prev_block,
                },
            },
        ),
        magic: get_blocks_args.magic,
    }
}

/// Create a witnet get-peers message
pub fn create_get_peers_message(get_peers_args: EmptyCommandArgs) -> (r: Message)
    ensures
        r@ == (MessageModel { kind: CommandModel::GetPeers, magic: get_peers_args.magic }),
{
    Message { kind: Command::GetPeers(GetPeers), magic: get_peers_args.magic }
}

/// Create a witnet peers message from a peers table: none when the table
/// has no vector of addresses; otherwise the addresses that stand for one.
pub fn create_peers_message(peers_args: PeersWitnetArgs) -> (r: Option<Message>)
    ensures
        r is Some <==> peers_args.peers.peers is Some,
        r matches Some(m) ==> m@ == (MessageModel {
            kind: CommandModel::Peers(spec_collect_addresses(peers_args.peers.peers->Some_0@)),
            magic: peers_args.magic,
        }),
{
    match peers_args.peers.peers {
        None => None,
        Some(ftb_addresses) => {
            let len = ftb_addresses.len();
            let mut counter: usize = 0;
            let mut vec_addresses: Vec<Address> = Vec::new();
            while counter < len
                invariant
                    counter <= len,
                    len == ftb_addresses@.len(),
                    vec_addresses@ == spec_collect_addresses(ftb_addresses@.take(counter as int)),
                decreases len - counter,
            {
                let peer = ftb_addresses[counter];
                let ftb_address = create_address(peer);
                proof {
                    assert(ftb_addresses@.take(counter + 1).drop_last() =~= ftb_addresses@.take(
                        counter as int,
                    ));
                }
                if ftb_address.is_some() {
                    vec_addresses.push(ftb_address.unwrap());
                }
                counter = counter + 1;
            }
            proof {
                assert(ftb_addresses@.take(len as int) =~= ftb_addresses@);
            }
            Some(
                Message {
                    kind: Command::Peers(Peers { peers: vec_addresses }),
                    magic: peers_args.magic,
                },
            )
        },
    }
}

/// Create a witnet ping message
pub fn create_ping_message(ping_args: HeartbeatCommandsArgs) -> (r: Message)
    ensures
        r@ == (MessageModel { kind: CommandModel::Ping(ping_args.nonce), magic: ping_args.magic }),
{
    Message { kind: Command::Ping(Ping { nonce: ping_args.nonce }), magic: ping_args.magic }
}

/// Create a witnet pong message
pub fn create_pong_message(pong_args: HeartbeatCommandsArgs) -> (r: Message)
    ensures
        r@ == (MessageModel { kind: CommandModel::Pong(pong_args.nonce), magic: pong_args.magic }),
{
    Message { kind: Command::Pong(Pong { nonce: pong_args.nonce }), magic: pong_args.magic }
}

/// Create a witnet verack message
pub fn create_verack_message(verack_args: EmptyCommandArgs) -> (r: Message)
    ensures
        r@ == (MessageModel { kind: CommandModel::Verack, magic: verack_args.magic }),
{
    Message { kind: Command::Verack(Verack), magic: verack_args.magic }
}

/// Create a witnet version message
pub fn create_version_message(version_args: VersionCommandArgs) -> (r: Message)
    ensures
        r@ == (MessageModel {
            kind: CommandModel::Version(
                VersionModel {
                    version: version_args.version,
                    timestamp: version_args.timestamp,
                    capabilities: version_args.capabilities,
                    sender_address: *version_args.sender_address,
                    receiver_address: *version_args.receiver_address,
                    user_agent: version_args.user_agent@,
                    last_epoch: version_args.last_epoch,
                    genesis: version_args.genesis,
                    nonce: version_args.nonce,
                },
            ),
            magic: version_args.magic,
        }),
{
    Message {
        kind: Command::Version(
            Version {
                version: version_args.version,
                timestamp: version_args.timestamp,
                capabilities: version_args.capabilities,
                sender_address: *version_args.sender_address,
                receiver_address: *version_args.receiver_address,
                user_agent: version_args.user_agent.to_string(),
                last_epoch: version_args.last_epoch,
                genesis: version_args.genesis,
                nonce: version_args.nonce,
            },
        ),
        magic: version_args.magic,
    }
}

/// The error that a buffer standing for no message gives: the empty string.
fn no_message() -> (e: &'static str)
    ensures
        e@ == Seq::<char>::empty(),
{
    proof {
        reveal_strlit("");
    }
    ""
}

/// Create a secp256k1 signature from a signature table
fn create_signature(signature_ftb: &protocol::Secp256k1Signature) -> (r: Secp256k1Signature)
    requires
        signature_ftb@.r.len() >= 32,
        signature_ftb@.s.len() >= 33,
    ensures
        r == spec_create_signature(signature_ftb@),
{
    let r = copy_32(signature_ftb.r.as_slice(), 0);
    let s = copy_32(signature_ftb.s.as_slice(), 0);
    let v = signature_ftb.s[32];
    proof {
        lemma_array32(r);
        lemma_array32(s);
    }
    Secp256k1Signature { r, s, v }
}

/// Create a witnet block from a block table
fn create_block(block: &protocol::Block) -> (r: Block)
    requires
        block_convertible(block@),
    ensures
        r@ == spec_create_block(block@),
{
    let header_ftb = &block.header;
    let version = header_ftb.version;
    let hash = create_hash(&header_ftb.beacon.hash_prev_block);
    let beacon = CheckpointBeacon { checkpoint: header_ftb.beacon.checkpoint, hash_prev_block: hash };
    let hash_merkle_root = create_hash(&header_ftb.hash_merkle_root);
    let block_sig = if header_ftb.proof.block_sig_type == SIGNATURE_SECP256K1 {
        match &header_ftb.proof.block_sig_as_secp256k1 {
            Some(signature_ftb) => Some(Signature::Secp256k1(create_signature(signature_ftb))),
            None => None,
        }
    } else {
        None
    };
    let influence = header_ftb.proof.influence;
    let proof = LeadershipProof { block_sig, influence };
    let header = BlockHeaderWithProof {
        block_header: BlockHeader { version, beacon, hash_merkle_root },
        proof,
    };
    let txn_count = block.txn_count;
    let len = block.txns_len;
    let mut counter: usize = 0;
    let mut txns: Vec<Transaction> = Vec::new();
    while counter < len
        invariant
            counter <= len,
            txns@ =~= Seq::new(counter as nat, |i: int| Transaction),
        decreases len - counter,
    {
        txns.push(Transaction);
        counter = counter + 1;
    }
    Block { header, txn_count, txns }
}

/// The message a message table stands for, or the error `""` where it
/// stands for none.
pub fn message_from_table(message: protocol::Message) -> (r: Result<Message, &'static str>)
    requires
        table_convertible(message@),
    ensures
        r is Ok <==> spec_message_from_table(message@) is Some,
        r matches Ok(m) ==> spec_message_from_table(message@) == Some(m@),
        r matches Err(e) ==> e@ == Seq::<char>::empty(),
{
    let magic = message.magic;
    match message.command {
        protocol::Command::NONE => Err(no_message()),
        protocol::Command::GetBlocks(get_blocks) => match get_blocks {
            Some(get_blocks) => {
                let checkpoint = &get_blocks.highest_block_checkpoint;
                let hash_prev_block = create_hash(&checkpoint.hash_prev_block);
                let highest_block_checkpoint = CheckpointBeacon {
                    checkpoint: checkpoint.checkpoint,
                    hash_prev_block,
                };
                Ok(create_get_blocks_message(GetBlocksCommandArgs { highest_block_checkpoint, magic }))
            },
            None => Err(no_message()),
        },
        protocol::Command::GetPeers => Ok(create_get_peers_message(EmptyCommandArgs { magic })),
        protocol::Command::Peers(peers) => match peers {
            Some(peers) => match create_peers_message(PeersWitnetArgs { magic, peers }) {
                Some(m) => Ok(m),
                None => Err(no_message()),
            },
            None => Err(no_message()),
        },
        protocol::Command::Ping(ping) => match ping {
            Some(ping) => Ok(create_ping_message(HeartbeatCommandsArgs { nonce: ping.nonce, magic })),
            None => Err(no_message()),
        },
        protocol::Command::Pong(pong) => match pong {
            Some(pong) => Ok(create_pong_message(HeartbeatCommandsArgs { nonce: pong.nonce, magic })),
            None => Err(no_message()),
        },
        protocol::Command::Verack => Ok(create_verack_message(EmptyCommandArgs { magic })),
        protocol::Command::Version(command) => match command {
            Some(command) => {
                // Get the table addresses and create witnet addresses
                let sender_address = match command.sender_address {
                    Some(a) => create_address(a),
                    None => None,
                };
                let receiver_address = match command.receiver_address {
                    Some(a) => create_address(a),
                    None => None,
                };
                // Check that the sender address and receiver address exist
                match (sender_address, receiver_address) {
                    (Some(sender_address), Some(receiver_address)) => Ok(
                        create_version_message(
                            VersionCommandArgs {
                                version: command.version,
                                timestamp: command.timestamp,
                                capabilities: command.capabilities,
                                sender_address: &sender_address,
                                receiver_address: &receiver_address,
                                user_agent: command.user_agent.as_str(),
                                last_epoch: command.last_epoch,
                                genesis: command.genesis,
                                nonce: command.nonce,
                                magic,
                            },
                        ),
                    ),
                    _ => Err(no_message()),
                }
            },
            None => Err(no_message()),
        },
        protocol::Command::Block(block) => match block {
            Some(block) => Ok(Message { kind: Command::Block(create_block(&block)), magic }),
            None => Err(no_message()),
        },
        protocol::Command::Inv(inv) => match inv {
            Some(inv) => Ok(create_inv_message(InvWitnetArgs { magic, inventory: inv })),
            None => Err(no_message()),
        },
        protocol::Command::GetData(get_data) => match get_data {
            Some(get_data) => Ok(
                create_get_data_message(GetDataWitnetArgs { magic, inventory: get_data }),
            ),
            None => Err(no_message()),
        },
    }
}

impl TryFrom<Vec<u8>> for Message {
    type Error = &'static str;

    open spec fn convertible(bytes: Vec<u8>) -> bool {
        decodable(bytes@)
    }

    /// Decoding gives the message the bytes stand for, or the error `""`
    /// where they stand for none (see [`spec_message_from_table`]).
    open spec fn converts_to(bytes: Vec<u8>, r: Result<Message, &'static str>) -> bool {
        &&& r is Ok <==> spec_decode(bytes@) is Some
        &&& r matches Ok(m) ==> spec_decode(bytes@) == Some(m@)
        &&& r matches Err(e) ==> e@ == Seq::<char>::empty()
    }

    /// Decodes a message from its bytes.
    fn try_from(bytes: Vec<u8>) -> (r: Result<Message, &'static str>) {
        let message = match read_message(bytes.as_slice()) {
            Some(message) => message,
            None => return Err(no_message()),
        };
        message_from_table(message)
    }
}

/// Every entry of an inventory table can be converted.
pub open spec fn inventory_convertible(i: protocol::InventoryModel) -> bool {
    forall|j: int| 0 <= j < i.inventory.len() ==> #[trigger] inv_vector_convertible(i.inventory[j])
}

/// Whether a hash table can be converted.
fn hash_ok(h: &protocol::Hash) -> (r: bool)
    ensures
        r == hash_convertible(h@),
{
    h.type_ == HASH_TYPE_SHA256 && h.bytes.len() == 32
}

/// Whether every entry of an inventory table can be converted.
fn inventory_ok(inventory: &protocol::Inventory) -> (r: bool)
    ensures
        r == inventory_convertible(inventory@),
{
    let mut i: usize = 0;
    while i < inventory.inventory.len()
        invariant
            i <= inventory.inventory@.len(),
            inventory@.inventory.len() == inventory.inventory@.len(),
            forall|j: int| 0 <= j < i ==> #[trigger] inv_vector_convertible(inventory@.inventory[j]),
        decreases inventory.inventory@.len() - i,
    {
        let x = &inventory.inventory[i];
        assert(inventory@.inventory[i as int] == x@);
        if !(x.type_ <= INV_TYPE_DATA_RESULT && hash_ok(&x.hash)) {
            assert(!inv_vector_convertible(inventory@.inventory[i as int]));
            return false;
        }
        i = i + 1;
    }
    true
}

/// Whether a message table can be converted (see [`table_convertible`]).
fn table_ok(message: &protocol::Message) -> (r: bool)
    ensures
        r == table_convertible(message@),
{
    match &message.command {
        protocol::Command::GetBlocks(Some(g)) => {
            let ok = hash_ok(&g.highest_block_checkpoint.hash_prev_block);
            assert(message@.command == protocol::CommandModel::GetBlocks(Some(g@)));
            ok
        },
        protocol::Command::Block(Some(b)) => {
            let p = &b.header.proof;
            let sig_ok = if p.block_sig_type != SIGNATURE_SECP256K1 {
                true
            } else {
                match &p.block_sig_as_secp256k1 {
                    Some(s) => s.r.len() >= 32 && s.s.len() >= 33,
                    None => true,
                }
            };
            let beacon_ok = hash_ok(&b.header.beacon.hash_prev_block);
            let root_ok = hash_ok(&b.header.hash_merkle_root);
            assert(message@.command == protocol::CommandModel::Block(Some(b@)));
            beacon_ok && root_ok && sig_ok
        },
        protocol::Command::Inv(Some(i)) => {
            assert(message@.command == protocol::CommandModel::Inv(Some(i@)));
            inventory_ok(i)
        },
        protocol::Command::GetData(Some(i)) => {
            assert(message@.command == protocol::CommandModel::GetData(Some(i@)));
            inventory_ok(i)
        },
        _ => true,
    }
}

/// Decodes a message from its bytes as [`TryFrom::try_from`] does, or
/// gives `None` where the bytes cannot be decoded at all (a read past their
/// end, a missing required field, an unknown tag, a hash that is not 32
/// bytes long, and so on: see [`decodable`]).
pub fn try_decode(bytes: Vec<u8>) -> (r: Option<Result<Message, &'static str>>)
    ensures
        r is None <==> !decodable(bytes@),
        r matches Some(x) ==> <Message as TryFrom<Vec<u8>>>::converts_to(bytes, x),
{
    let message = match read_message(bytes.as_slice()) {
        Some(message) => message,
        None => return None,
    };
    if !table_ok(&message) {
        return None;
    }
    Some(message_from_table(message))
}

} // verus!
