//! Plain views of the tables of the message format, and how each is read
//! from a buffer.
//!
//! Each table is read the way the format's accessors read it: scalar fields
//! default to zero when absent, optional references are `None` when absent,
//! and a union's value is only looked at when its type tag names it. A
//! reader returns `None` where the buffer cannot be read that way: a read
//! past its end, an offset that points nowhere, a required field that is
//! missing, an enum tag outside its enum, or a string that is not UTF-8.
use vstd::prelude::*;

use crate::wire::{
    bytes_at, field_i64, field_ref, field_u16, field_u32, field_u64, field_u8, root, spec_bytes,
    spec_field_i64, spec_field_ref, spec_field_u16, spec_field_u32, spec_field_u64, spec_field_u8,
    spec_root, spec_string, spec_vec_elem, spec_vec_len, string_at, vec_elem, vec_len,
};

verus! {

// Vtable slots of the fields of each table.
pub const HASH_TYPE: usize = 4;
pub const HASH_BYTES: usize = 6;
pub const BEACON_CHECKPOINT: usize = 4;
pub const BEACON_HASH_PREV_BLOCK: usize = 6;
pub const IPV4_IP: usize = 4;
pub const IPV6_IP0: usize = 4;
pub const IPV6_IP1: usize = 6;
pub const IPV6_IP2: usize = 8;
pub const IPV6_IP3: usize = 10;
pub const ADDRESS_IP_TYPE: usize = 4;
pub const ADDRESS_IP: usize = 6;
pub const ADDRESS_PORT: usize = 8;
pub const PEERS_PEERS: usize = 4;
pub const HEARTBEAT_NONCE: usize = 4;
pub const VERSION_VERSION: usize = 4;
pub const VERSION_TIMESTAMP: usize = 6;
pub const VERSION_CAPABILITIES: usize = 8;
pub const VERSION_SENDER_ADDRESS: usize = 10;
pub const VERSION_RECEIVER_ADDRESS: usize = 12;
pub const VERSION_USER_AGENT: usize = 14;
pub const VERSION_LAST_EPOCH: usize = 16;
pub const VERSION_GENESIS: usize = 18;
pub const VERSION_NONCE: usize = 20;
pub const GET_BLOCKS_HIGHEST_BLOCK_CHECKPOINT: usize = 4;
pub const SIGNATURE_R: usize = 4;
pub const SIGNATURE_S: usize = 6;
pub const PROOF_BLOCK_SIG_TYPE: usize = 4;
pub const PROOF_BLOCK_SIG: usize = 6;
pub const PROOF_INFLUENCE: usize = 8;
pub const HEADER_VERSION: usize = 4;
pub const HEADER_BEACON: usize = 6;
pub const HEADER_HASH_MERKLE_ROOT: usize = 8;
pub const HEADER_PROOF: usize = 10;
pub const BLOCK_HEADER: usize = 4;
pub const BLOCK_TXN_COUNT: usize = 6;
pub const BLOCK_TXNS: usize = 8;
pub const INV_VECTOR_TYPE: usize = 4;
pub const INV_VECTOR_HASH: usize = 6;
pub const INVENTORY_INVENTORY: usize = 4;
pub const MESSAGE_MAGIC: usize = 4;
pub const MESSAGE_COMMAND_TYPE: usize = 6;
pub const MESSAGE_COMMAND: usize = 8;

// Enum and union tags.
pub const HASH_TYPE_SHA256: u8 = 0;
pub const IP_ADDRESS_NONE: u8 = 0;
pub const IP_ADDRESS_IPV4: u8 = 1;
pub const IP_ADDRESS_IPV6: u8 = 2;
pub const SIGNATURE_NONE: u8 = 0;
pub const SIGNATURE_SECP256K1: u8 = 1;
pub const INV_TYPE_ERROR: u8 = 0;
pub const INV_TYPE_TX: u8 = 1;
pub const INV_TYPE_BLOCK: u8 = 2;
pub const INV_TYPE_DATA_REQUEST: u8 = 3;
pub const INV_TYPE_DATA_RESULT: u8 = 4;
pub const COMMAND_NONE: u8 = 0;
pub const COMMAND_GET_BLOCKS: u8 = 1;
pub const COMMAND_GET_PEERS: u8 = 2;
pub const COMMAND_PEERS: u8 = 3;
pub const COMMAND_PING: u8 = 4;
pub const COMMAND_PONG: u8 = 5;
pub const COMMAND_VERACK: u8 = 6;
pub const COMMAND_VERSION: u8 = 7;
pub const COMMAND_BLOCK: u8 = 8;
pub const COMMAND_INV: u8 = 9;
pub const COMMAND_GET_DATA: u8 = 10;

/// Whether an exec read matches its spec value.
pub open spec fn read_as<T: View>(r: Option<T>, s: Option<T::V>) -> bool {
    match r {
        Some(x) => s == Some(x@),
        None => s is None,
    }
}

// ---------------------------------------------------------------------------
// Vectors of tables
// ---------------------------------------------------------------------------

/// The first `n` elements of the vector of tables at `v`, each read by `f`.
pub open spec fn spec_read_list<T>(
    b: Seq<u8>,
    v: int,
    n: nat,
    f: spec_fn(Seq<u8>, int) -> Option<T>,
) -> Option<Seq<T>>
    decreases n,
{
    if n == 0 {
        Some(Seq::empty())
    } else {
        match spec_read_list(b, v, (n - 1) as nat, f) {
            None => None,
            Some(s) => match spec_vec_elem(b, v, n - 1) {
                None => None,
                Some(e) => match f(b, e) {
                    None => None,
                    Some(x) => Some(s.push(x)),
                },
            },
        }
    }
}

/// Once a prefix of a vector cannot be read, no longer prefix can be.
pub proof fn lemma_read_list_none<T>(
    b: Seq<u8>,
    v: int,
    i: nat,
    n: nat,
    f: spec_fn(Seq<u8>, int) -> Option<T>,
)
    requires
        i <= n,
        spec_read_list(b, v, i, f) is None,
    ensures
        spec_read_list(b, v, n, f) is None,
    decreases n - i,
{
    if i < n {
        lemma_read_list_none(b, v, i + 1, n, f);
    }
}

/// Reading one more element extends the read prefix by it.
pub proof fn lemma_read_list_step<T>(
    b: Seq<u8>,
    v: int,
    i: nat,
    f: spec_fn(Seq<u8>, int) -> Option<T>,
    s: Seq<T>,
    e: int,
    x: T,
)
    requires
        spec_read_list(b, v, i, f) == Some(s),
        spec_vec_elem(b, v, i as int) == Some(e),
        f(b, e) == Some(x),
    ensures
        spec_read_list(b, v, i + 1, f) == Some(s.push(x)),
{
    assert(spec_read_list(b, v, i + 1, f) == Some(s.push(x)));
}

/// Failing to read the next element fails the longer prefix.
pub proof fn lemma_read_list_step_none<T>(
    b: Seq<u8>,
    v: int,
    i: nat,
    f: spec_fn(Seq<u8>, int) -> Option<T>,
)
    requires
        spec_read_list(b, v, i, f) is Some,
        spec_vec_elem(b, v, i as int) matches Some(e) ==> f(b, e) is None,
    ensures
        spec_read_list(b, v, i + 1, f) is None,
{
}

/// A read prefix has as many elements as were asked for.
pub proof fn lemma_read_list_len<T>(
    b: Seq<u8>,
    v: int,
    n: nat,
    f: spec_fn(Seq<u8>, int) -> Option<T>,
)
    requires
        spec_read_list(b, v, n, f) is Some,
    ensures
        spec_read_list(b, v, n, f)->Some_0.len() == n,
    decreases n,
{
    if n > 0 {
        lemma_read_list_len(b, v, (n - 1) as nat, f);
    }
}

/// All elements of the vector of tables at `v`, each read by `f`.
pub open spec fn spec_read_vector<T>(
    b: Seq<u8>,
    v: int,
    f: spec_fn(Seq<u8>, int) -> Option<T>,
) -> Option<Seq<T>> {
    match spec_vec_len(b, v) {
        None => None,
        Some(n) => spec_read_list(b, v, n as nat, f),
    }
}

// ---------------------------------------------------------------------------
// Hash
// ---------------------------------------------------------------------------

/// A `Hash` table: its type tag and its bytes.
pub struct Hash {
    pub type_: u8,
    pub bytes: Vec<u8>,
}

pub struct HashModel {
    pub type_: u8,
    pub bytes: Seq<u8>,
}

impl View for Hash {
    type V = HashModel;

    open spec fn view(&self) -> HashModel {
        HashModel { type_: self.type_, bytes: self.bytes@ }
    }
}

pub open spec fn spec_read_hash(b: Seq<u8>, loc: int) -> Option<HashModel> {
    match (spec_field_u8(b, loc, HASH_TYPE as int), spec_field_ref(b, loc, HASH_BYTES as int)) {
        (Some(t), Some(Some(v))) => {
            if t == HASH_TYPE_SHA256 {
                match spec_bytes(b, v) {
                    Some(bytes) => Some(HashModel { type_: t, bytes }),
                    None => None,
                }
            } else {
                None
            }
        },
        _ => None,
    }
}

pub fn read_hash(buf: &[u8], loc: usize) -> (r: Option<Hash>)
    ensures
        read_as(r, spec_read_hash(buf@, loc as int)),
{
    let t = match field_u8(buf, loc, HASH_TYPE) {
        Some(t) => t,
        None => return None,
    };
    let v = match field_ref(buf, loc, HASH_BYTES) {
        Some(Some(v)) => v,
        _ => return None,
    };
    if t != HASH_TYPE_SHA256 {
        return None;
    }
    match bytes_at(buf, v) {
        Some(bytes) => Some(Hash { type_: t, bytes: vstd::slice::slice_to_vec(bytes) }),
        None => None,
    }
}

// ---------------------------------------------------------------------------
// CheckpointBeacon
// ---------------------------------------------------------------------------

/// A `CheckpointBeacon` table.
pub struct CheckpointBeacon {
    pub checkpoint: u32,
    pub hash_prev_block: Hash,
}

pub struct CheckpointBeaconModel {
    pub checkpoint: u32,
    pub hash_prev_block: HashModel,
}

impl View for CheckpointBeacon {
    type V = CheckpointBeaconModel;

    open spec fn view(&self) -> CheckpointBeaconModel {
        CheckpointBeaconModel { checkpoint: self.checkpoint, hash_prev_block: self.hash_prev_block@ }
    }
}

pub open spec fn spec_read_beacon(b: Seq<u8>, loc: int) -> Option<CheckpointBeaconModel> {
    match (
        spec_field_u32(b, loc, BEACON_CHECKPOINT as int),
        spec_field_ref(b, loc, BEACON_HASH_PREV_BLOCK as int),
    ) {
        (Some(checkpoint), Some(Some(h))) => match spec_read_hash(b, h) {
            Some(hash_prev_block) => Some(CheckpointBeaconModel { checkpoint, hash_prev_block }),
            None => None,
        },
        _ => None,
    }
}

pub fn read_beacon(buf: &[u8], loc: usize) -> (r: Option<CheckpointBeacon>)
    ensures
        read_as(r, spec_read_beacon(buf@, loc as int)),
{
    let checkpoint = match field_u32(buf, loc, BEACON_CHECKPOINT) {
        Some(c) => c,
        None => return None,
    };
    let h = match field_ref(buf, loc, BEACON_HASH_PREV_BLOCK) {
        Some(Some(h)) => h,
        _ => return None,
    };
    match read_hash(buf, h) {
        Some(hash_prev_block) => Some(CheckpointBeacon { checkpoint, hash_prev_block }),
        None => None,
    }
}

// ---------------------------------------------------------------------------
// Addresses
// ---------------------------------------------------------------------------

/// An `Ipv4` table.
#[derive(Copy, Clone, Debug, PartialEq, Eq, Structural)]
pub struct Ipv4 {
    pub ip: u32,
}

/// An `Ipv6` table.
#[derive(Copy, Clone, Debug, PartialEq, Eq, Structural)]
pub struct Ipv6 {
    pub ip0: u32,
    pub ip1: u32,
    pub ip2: u32,
    pub ip3: u32,
}

/// An `Address` table: the tag of its `ip` union, the union's value as an
/// `Ipv4` (only looked at when the tag says `Ipv4`) or as an `Ipv6` (only
/// when it says `Ipv6`), and the port, which is only read when the union's
/// value is present (and stands as zero otherwise).
#[derive(Copy, Clone, Debug, PartialEq, Eq, Structural)]
pub struct Address {
    pub ip_type: u8,
    pub ip_as_ipv4: Option<Ipv4>,
    pub ip_as_ipv6: Option<Ipv6>,
    pub port: u16,
}

impl View for Address {
    type V = Address;

    open spec fn view(&self) -> Address {
        *self
    }
}

pub open spec fn spec_read_ipv4(b: Seq<u8>, loc: int) -> Option<Ipv4> {
    match spec_field_u32(b, loc, IPV4_IP as int) {
        Some(ip) => Some(Ipv4 { ip }),
        None => None,
    }
}

pub open spec fn spec_read_ipv6(b: Seq<u8>, loc: int) -> Option<Ipv6> {
    match (
        spec_field_u32(b, loc, IPV6_IP0 as int),
        spec_field_u32(b, loc, IPV6_IP1 as int),
        spec_field_u32(b, loc, IPV6_IP2 as int),
        spec_field_u32(b, loc, IPV6_IP3 as int),
    ) {
        (Some(ip0), Some(ip1), Some(ip2), Some(ip3)) => Some(Ipv6 { ip0, ip1, ip2, ip3 }),
        _ => None,
    }
}

/// The `ip` union's value read as an `Ipv4` when `tag` names `Ipv4`.
pub open spec fn spec_read_ip_as_ipv4(b: Seq<u8>, loc: int, tag: u8) -> Option<Option<Ipv4>> {
    if tag == IP_ADDRESS_IPV4 {
        match spec_field_ref(b, loc, ADDRESS_IP as int) {
            None => None,
            Some(None) => Some(None),
            Some(Some(t)) => match spec_read_ipv4(b, t) {
                None => None,
                Some(x) => Some(Some(x)),
            },
        }
    } else {
        Some(None)
    }
}

/// The `ip` union's value read as an `Ipv6` when `tag` names `Ipv6`.
pub open spec fn spec_read_ip_as_ipv6(b: Seq<u8>, loc: int, tag: u8) -> Option<Option<Ipv6>> {
    if tag == IP_ADDRESS_IPV6 {
        match spec_field_ref(b, loc, ADDRESS_IP as int) {
            None => None,
            Some(None) => Some(None),
            Some(Some(t)) => match spec_read_ipv6(b, t) {
                None => None,
                Some(x) => Some(Some(x)),
            },
        }
    } else {
        Some(None)
    }
}

pub open spec fn spec_read_address(b: Seq<u8>, loc: int) -> Option<Address> {
    match spec_field_u8(b, loc, ADDRESS_IP_TYPE as int) {
        None => None,
        Some(tag) => {
            if tag > IP_ADDRESS_IPV6 {
                None
            } else {
                match (spec_read_ip_as_ipv4(b, loc, tag), spec_read_ip_as_ipv6(b, loc, tag)) {
                    (Some(ip_as_ipv4), Some(ip_as_ipv6)) => {
                        if ip_as_ipv4 is Some || ip_as_ipv6 is Some {
                            match spec_field_u16(b, loc, ADDRESS_PORT as int) {
                                Some(port) => Some(Address { ip_type: tag, ip_as_ipv4, ip_as_ipv6, port }),
                                None => None,
                            }
                        } else {
                            Some(Address { ip_type: tag, ip_as_ipv4, ip_as_ipv6, port: 0 })
                        }
                    },
                    _ => None,
                }
            }
        },
    }
}

fn read_ipv4(buf: &[u8], loc: usize) -> (r: Option<Ipv4>)
    ensures
        r == spec_read_ipv4(buf@, loc as int),
{
    match field_u32(buf, loc, IPV4_IP) {
        Some(ip) => Some(Ipv4 { ip }),
        None => None,
    }
}

fn read_ipv6(buf: &[u8], loc: usize) -> (r: Option<Ipv6>)
    ensures
        r == spec_read_ipv6(buf@, loc as int),
{
    let ip0 = match field_u32(buf, loc, IPV6_IP0) {
        Some(x) => x,
        None => return None,
    };
    let ip1 = match field_u32(buf, loc, IPV6_IP1) {
        Some(x) => x,
        None => return None,
    };
    let ip2 = match field_u32(buf, loc, IPV6_IP2) {
        Some(x) => x,
        None => return None,
    };
    let ip3 = match field_u32(buf, loc, IPV6_IP3) {
        Some(x) => x,
        None => return None,
    };
    Some(Ipv6 { ip0, ip1, ip2, ip3 })
}

pub fn read_address(buf: &[u8], loc: usize) -> (r: Option<Address>)
    ensures
        r == spec_read_address(buf@, loc as int),
{
    let tag = match field_u8(buf, loc, ADDRESS_IP_TYPE) {
        Some(t) => t,
        None => return None,
    };
    if tag > IP_ADDRESS_IPV6 {
        return None;
    }
    let ip_as_ipv4 = if tag == IP_ADDRESS_IPV4 {
        match field_ref(buf, loc, ADDRESS_IP) {
            None => return None,
            Some(None) => None,
            Some(Some(t)) => match read_ipv4(buf, t) {
                None => return None,
                Some(x) => Some(x),
            },
        }
    } else {
        None
    };
    let ip_as_ipv6 = if tag == IP_ADDRESS_IPV6 {
        match field_ref(buf, loc, ADDRESS_IP) {
            None => return None,
            Some(None) => None,
            Some(Some(t)) => match read_ipv6(buf, t) {
                None => return None,
                Some(x) => Some(x),
            },
        }
    } else {
        None
    };
    if ip_as_ipv4.is_none() && ip_as_ipv6.is_none() {
        return Some(Address { ip_type: tag, ip_as_ipv4, ip_as_ipv6, port: 0 });
    }
    let port = match field_u16(buf, loc, ADDRESS_PORT) {
        Some(p) => p,
        None => return None,
    };
    Some(Address { ip_type: tag, ip_as_ipv4, ip_as_ipv6, port })
}

pub open spec fn address_reader() -> spec_fn(Seq<u8>, int) -> Option<Address> {
    |b: Seq<u8>, e: int| spec_read_address(b, e)
}

fn read_address_vector(buf: &[u8], v: usize) -> (r: Option<Vec<Address>>)
    ensures
        r matches Some(s) ==> spec_read_vector(buf@, v as int, address_reader()) == Some(s@),
        r is None ==> spec_read_vector(buf@, v as int, address_reader()) is None,
{
    let n = match vec_len(buf, v) {
        Some(n) => n,
        None => return None,
    };
    let mut out: Vec<Address> = Vec::new();
    let mut i: usize = 0;
    while i < n
        invariant
            i <= n,
            n as int == spec_vec_len(buf@, v as int)->Some_0,
            spec_vec_len(buf@, v as int) is Some,
            spec_read_list(buf@, v as int, i as nat, address_reader()) == Some(out@),
        decreases n - i,
    {
        let e = match vec_elem(buf, v, i) {
            Some(e) => e,
            None => {
                proof {
                    lemma_read_list_none(buf@, v as int, (i + 1) as nat, n as nat, address_reader());
                }
                return None;
            },
        };
        let a = match read_address(buf, e) {
            Some(a) => a,
            None => {
                proof {
                    lemma_read_list_none(buf@, v as int, (i + 1) as nat, n as nat, address_reader());
                }
                return None;
            },
        };
        out.push(a);
        i = i + 1;
    }
    Some(out)
}

// ---------------------------------------------------------------------------
// Peers
// ---------------------------------------------------------------------------

/// A `Peers` table: its (optional) vector of addresses.
pub struct Peers {
    pub peers: Option<Vec<Address>>,
}

pub struct PeersModel {
    pub peers: Option<Seq<Address>>,
}

impl View for Peers {
    type V = PeersModel;

    open spec fn view(&self) -> PeersModel {
        PeersModel {
            peers: match self.peers {
                Some(p) => Some(p@),
                None => None,
            },
        }
    }
}

pub open spec fn spec_read_peers(b: Seq<u8>, loc: int) -> Option<PeersModel> {
    match spec_field_ref(b, loc, PEERS_PEERS as int) {
        None => None,
        Some(None) => Some(PeersModel { peers: None }),
        Some(Some(v)) => match spec_read_vector(b, v, address_reader()) {
            None => None,
            Some(s) => Some(PeersModel { peers: Some(s) }),
        },
    }
}

pub fn read_peers(buf: &[u8], loc: usize) -> (r: Option<Peers>)
    ensures
        read_as(r, spec_read_peers(buf@, loc as int)),
{
    match field_ref(buf, loc, PEERS_PEERS) {
        None => None,
        Some(None) => Some(Peers { peers: None }),
        Some(Some(v)) => match read_address_vector(buf, v) {
            None => None,
            Some(s) => Some(Peers { peers: Some(s) }),
        },
    }
}

// ---------------------------------------------------------------------------
// Ping and Pong
// ---------------------------------------------------------------------------

/// A `Ping` table.
#[derive(Copy, Clone, Debug, PartialEq, Eq, Structural)]
pub struct Ping {
    pub nonce: u64,
}

/// A `Pong` table.
#[derive(Copy, Clone, Debug, PartialEq, Eq, Structural)]
pub struct Pong {
    pub nonce: u64,
}

impl View for Ping {
    type V = Ping;

    open spec fn view(&self) -> Ping {
        *self
    }
}

impl View for Pong {
    type V = Pong;

    open spec fn view(&self) -> Pong {
        *self
    }
}

pub open spec fn spec_read_ping(b: Seq<u8>, loc: int) -> Option<Ping> {
    match spec_field_u64(b, loc, HEARTBEAT_NONCE as int) {
        Some(nonce) => Some(Ping { nonce }),
        None => None,
    }
}

pub open spec fn spec_read_pong(b: Seq<u8>, loc: int) -> Option<Pong> {
    match spec_field_u64(b, loc, HEARTBEAT_NONCE as int) {
        Some(nonce) => Some(Pong { nonce }),
        None => None,
    }
}

pub fn read_ping(buf: &[u8], loc: usize) -> (r: Option<Ping>)
    ensures
        r == spec_read_ping(buf@, loc as int),
{
    match field_u64(buf, loc, HEARTBEAT_NONCE) {
        Some(nonce) => Some(Ping { nonce }),
        None => None,
    }
}

pub fn read_pong(buf: &[u8], loc: usize) -> (r: Option<Pong>)
    ensures
        r == spec_read_pong(buf@, loc as int),
{
    match field_u64(buf, loc, HEARTBEAT_NONCE) {
        Some(nonce) => Some(Pong { nonce }),
        None => None,
    }
}

// ---------------------------------------------------------------------------
// Version
// ---------------------------------------------------------------------------

/// A `Version` table; the two addresses are optional. Its other fields are
/// only read when both addresses are present and hold an IP address (see
/// [`both_addresses`]); otherwise they stand as zero and the empty string.
pub struct Version {
    pub version: u32,
    pub timestamp: i64,
    pub capabilities: u64,
    pub sender_address: Option<Address>,
    pub receiver_address: Option<Address>,
    pub user_agent: String,
    pub last_epoch: u32,
    pub genesis: u64,
    pub nonce: u64,
}

pub struct VersionModel {
    pub version: u32,
    pub timestamp: i64,
    pub capabilities: u64,
    pub sender_address: Option<Address>,
    pub receiver_address: Option<Address>,
    pub user_agent: Seq<char>,
    pub last_epoch: u32,
    pub genesis: u64,
    pub nonce: u64,
}

impl View for Version {
    type V = VersionModel;

    open spec fn view(&self) -> VersionModel {
        VersionModel {
            version: self.version,
            timestamp: self.timestamp,
            capabilities: self.capabilities,
            sender_address: self.sender_address,
            receiver_address: self.receiver_address,
            user_agent: self.user_agent@,
            last_epoch: self.last_epoch,
            genesis: self.genesis,
            nonce: self.nonce,
        }
    }
}

/// An optional address field.
pub open spec fn spec_read_opt_address(b: Seq<u8>, loc: int, slot: int) -> Option<Option<Address>> {
    match spec_field_ref(b, loc, slot) {
        None => None,
        Some(None) => Some(None),
        Some(Some(a)) => match spec_read_address(b, a) {
            None => None,
            Some(x) => Some(Some(x)),
        },
    }
}

/// The required string field.
pub open spec fn spec_read_user_agent(b: Seq<u8>, loc: int) -> Option<Seq<char>> {
    match spec_field_ref(b, loc, VERSION_USER_AGENT as int) {
        Some(Some(s)) => spec_string(b, s),
        _ => None,
    }
}

/// Whether an address table names a kind of IP address and holds its value.
pub open spec fn has_ip(a: Address) -> bool {
    a.ip_as_ipv4 is Some || a.ip_as_ipv6 is Some
}

/// Whether both addresses of a version table are present and hold an IP
/// address: only then are the table's other fields read.
pub open spec fn both_addresses(sender: Option<Address>, receiver: Option<Address>) -> bool {
    &&& sender matches Some(s) && has_ip(s)
    &&& receiver matches Some(r) && has_ip(r)
}

pub open spec fn spec_read_version(b: Seq<u8>, loc: int) -> Option<VersionModel> {
    match (
        spec_read_opt_address(b, loc, VERSION_SENDER_ADDRESS as int),
        spec_read_opt_address(b, loc, VERSION_RECEIVER_ADDRESS as int),
    ) {
        (Some(sender_address), Some(receiver_address)) => {
            if !both_addresses(sender_address, receiver_address) {
                Some(
                    VersionModel {
                        version: 0,
                        timestamp: 0,
                        capabilities: 0,
                        sender_address,
                        receiver_address,
                        user_agent: Seq::empty(),
                        last_epoch: 0,
                        genesis: 0,
                        nonce: 0,
                    },
                )
            } else {
                match (
                    spec_field_u32(b, loc, VERSION_VERSION as int),
                    spec_field_i64(b, loc, VERSION_TIMESTAMP as int),
                    spec_field_u64(b, loc, VERSION_CAPABILITIES as int),
                    spec_read_user_agent(b, loc),
                    spec_field_u32(b, loc, VERSION_LAST_EPOCH as int),
                    spec_field_u64(b, loc, VERSION_GENESIS as int),
                    spec_field_u64(b, loc, VERSION_NONCE as int),
                ) {
                    (
                        Some(version),
                        Some(timestamp),
                        Some(capabilities),
                        Some(user_agent),
                        Some(last_epoch),
                        Some(genesis),
                        Some(nonce),
                    ) => Some(
                        VersionModel {
                            version,
                            timestamp,
                            capabilities,
                            sender_address,
                            receiver_address,
                            user_agent,
                            last_epoch,
                            genesis,
                            nonce,
                        },
                    ),
                    _ => None,
                }
            }
        },
        _ => None,
    }
}

fn read_opt_address(buf: &[u8], loc: usize, slot: usize) -> (r: Option<Option<Address>>)
    requires
        slot < 0x8000,
    ensures
        r == spec_read_opt_address(buf@, loc as int, slot as int),
{
    match field_ref(buf, loc, slot) {
        None => None,
        Some(None) => Some(None),
        Some(Some(a)) => match read_address(buf, a) {
            None => None,
            Some(x) => Some(Some(x)),
        },
    }
}

pub fn read_version(buf: &[u8], loc: usize) -> (r: Option<Version>)
    ensures
        read_as(r, spec_read_version(buf@, loc as int)),
{
    let sender_address = match read_opt_address(buf, loc, VERSION_SENDER_ADDRESS) {
        Some(x) => x,
        None => return None,
    };
    let receiver_address = match read_opt_address(buf, loc, VERSION_RECEIVER_ADDRESS) {
        Some(x) => x,
        None => return None,
    };
    let complete = match (&sender_address, &receiver_address) {
        (Some(s), Some(r)) => (s.ip_as_ipv4.is_some() || s.ip_as_ipv6.is_some()) && (
        r.ip_as_ipv4.is_some() || r.ip_as_ipv6.is_some()),
        _ => false,
    };
    if !complete {
        let r = Version {
            version: 0,
            timestamp: 0,
            capabilities: 0,
            sender_address,
            receiver_address,
            user_agent: String::new(),
            last_epoch: 0,
            genesis: 0,
            nonce: 0,
        };
        proof {
            assert(r.user_agent@ =~= Seq::<char>::empty());
        }
        return Some(r);
    }
    let version = match field_u32(buf, loc, VERSION_VERSION) {
        Some(x) => x,
        None => return None,
    };
    let timestamp = match field_i64(buf, loc, VERSION_TIMESTAMP) {
        Some(x) => x,
        None => return None,
    };
    let capabilities = match field_u64(buf, loc, VERSION_CAPABILITIES) {
        Some(x) => x,
        None => return None,
    };
    let user_agent = match field_ref(buf, loc, VERSION_USER_AGENT) {
        Some(Some(s)) => match string_at(buf, s) {
            Some(x) => x,
            None => return None,
        },
        _ => return None,
    };
    let last_epoch = match field_u32(buf, loc, VERSION_LAST_EPOCH) {
        Some(x) => x,
        None => return None,
    };
    let genesis = match field_u64(buf, loc, VERSION_GENESIS) {
        Some(x) => x,
        None => return None,
    };
    let nonce = match field_u64(buf, loc, VERSION_NONCE) {
        Some(x) => x,
        None => return None,
    };
    Some(
        Version {
            version,
            timestamp,
            capabilities,
            sender_address,
            receiver_address,
            user_agent,
            last_epoch,
            genesis,
            nonce,
        },
    )
}

// ---------------------------------------------------------------------------
// GetBlocks
// ---------------------------------------------------------------------------

/// A `GetBlocks` table.
pub struct GetBlocks {
    pub highest_block_checkpoint: CheckpointBeacon,
}

pub struct GetBlocksModel {
    pub highest_block_checkpoint: CheckpointBeaconModel,
}

impl View for GetBlocks {
    type V = GetBlocksModel;

    open spec fn view(&self) -> GetBlocksModel {
        GetBlocksModel { highest_block_checkpoint: self.highest_block_checkpoint@ }
    }
}

pub open spec fn spec_read_get_blocks(b: Seq<u8>, loc: int) -> Option<GetBlocksModel> {
    match spec_field_ref(b, loc, GET_BLOCKS_HIGHEST_BLOCK_CHECKPOINT as int) {
        Some(Some(c)) => match spec_read_beacon(b, c) {
            Some(highest_block_checkpoint) => Some(GetBlocksModel { highest_block_checkpoint }),
            None => None,
        },
        _ => None,
    }
}

pub fn read_get_blocks(buf: &[u8], loc: usize) -> (r: Option<GetBlocks>)
    ensures
        read_as(r, spec_read_get_blocks(buf@, loc as int)),
{
    match field_ref(buf, loc, GET_BLOCKS_HIGHEST_BLOCK_CHECKPOINT) {
        Some(Some(c)) => match read_beacon(buf, c) {
            Some(highest_block_checkpoint) => Some(GetBlocks { highest_block_checkpoint }),
            None => None,
        },
        _ => None,
    }
}

// ---------------------------------------------------------------------------
// Blocks
// ---------------------------------------------------------------------------

/// A `Secp256k1Signature` table: the bytes of `r` and of `s`.
pub struct Secp256k1Signature {
    pub r: Vec<u8>,
    pub s: Vec<u8>,
}

pub struct Secp256k1SignatureModel {
    pub r: Seq<u8>,
    pub s: Seq<u8>,
}

impl View for Secp256k1Signature {
    type V = Secp256k1SignatureModel;

    open spec fn view(&self) -> Secp256k1SignatureModel {
        Secp256k1SignatureModel { r: self.r@, s: self.s@ }
    }
}

/// A `LeadershipProof` table: the tag of its `block_sig` union, the union's
/// value as a secp256k1 signature (only looked at when the tag names it),
/// and the influence.
pub struct LeadershipProof {
    pub block_sig_type: u8,
    pub block_sig_as_secp256k1: Option<Secp256k1Signature>,
    pub influence: u64,
}

pub struct LeadershipProofModel {
    pub block_sig_type: u8,
    pub block_sig_as_secp256k1: Option<Secp256k1SignatureModel>,
    pub influence: u64,
}

impl View for LeadershipProof {
    type V = LeadershipProofModel;

    open spec fn view(&self) -> LeadershipProofModel {
        LeadershipProofModel {
            block_sig_type: self.block_sig_type,
            block_sig_as_secp256k1: match self.block_sig_as_secp256k1 {
                Some(s) => Some(s@),
                None => None,
            },
            influence: self.influence,
        }
    }
}

/// A `BlockHeader` table.
pub struct BlockHeader {
    pub version: u32,
    pub beacon: CheckpointBeacon,
    pub hash_merkle_root: Hash,
    pub proof: LeadershipProof,
}

pub struct BlockHeaderModel {
    pub version: u32,
    pub beacon: CheckpointBeaconModel,
    pub hash_merkle_root: HashModel,
    pub proof: LeadershipProofModel,
}

impl View for BlockHeader {
    type V = BlockHeaderModel;

    open spec fn view(&self) -> BlockHeaderModel {
        BlockHeaderModel {
            version: self.version,
            beacon: self.beacon@,
            hash_merkle_root: self.hash_merkle_root@,
            proof: self.proof@,
        }
    }
}

/// A `Block` table: its header, its transaction count, and how many
/// transactions its vector holds.
pub struct Block {
    pub header: BlockHeader,
    pub txn_count: u32,
    pub txns_len: usize,
}

pub struct BlockModel {
    pub header: BlockHeaderModel,
    pub txn_count: u32,
    pub txns_len: nat,
}

impl View for Block {
    type V = BlockModel;

    open spec fn view(&self) -> BlockModel {
        BlockModel { header: self.header@, txn_count: self.txn_count, txns_len: self.txns_len as nat }
    }
}

pub open spec fn spec_read_signature(b: Seq<u8>, loc: int) -> Option<Secp256k1SignatureModel> {
    match (
        spec_field_ref(b, loc, SIGNATURE_R as int),
        spec_field_ref(b, loc, SIGNATURE_S as int),
    ) {
        (Some(Some(rv)), Some(Some(sv))) => match (spec_bytes(b, rv), spec_bytes(b, sv)) {
            (Some(r), Some(s)) => Some(Secp256k1SignatureModel { r, s }),
            _ => None,
        },
        _ => None,
    }
}

pub open spec fn spec_read_proof(b: Seq<u8>, loc: int) -> Option<LeadershipProofModel> {
    match spec_field_u8(b, loc, PROOF_BLOCK_SIG_TYPE as int) {
        None => None,
        Some(tag) => {
            if tag > SIGNATURE_SECP256K1 {
                None
            } else {
                let sig: Option<Option<Secp256k1SignatureModel>> = if tag == SIGNATURE_SECP256K1 {
                    match spec_field_ref(b, loc, PROOF_BLOCK_SIG as int) {
                        None => None,
                        Some(None) => Some(None),
                        Some(Some(t)) => match spec_read_signature(b, t) {
                            None => None,
                            Some(x) => Some(Some(x)),
                        },
                    }
                } else {
                    Some(None)
                };
                match (sig, spec_field_u64(b, loc, PROOF_INFLUENCE as int)) {
                    (Some(block_sig_as_secp256k1), Some(influence)) => Some(
                        LeadershipProofModel {
                            block_sig_type: tag,
                            block_sig_as_secp256k1,
                            influence,
                        },
                    ),
                    _ => None,
                }
            }
        },
    }
}

pub open spec fn spec_read_header(b: Seq<u8>, loc: int) -> Option<BlockHeaderModel> {
    match (
        spec_field_u32(b, loc, HEADER_VERSION as int),
        spec_field_ref(b, loc, HEADER_BEACON as int),
        spec_field_ref(b, loc, HEADER_HASH_MERKLE_ROOT as int),
        spec_field_ref(b, loc, HEADER_PROOF as int),
    ) {
        (Some(version), Some(Some(bl)), Some(Some(hl)), Some(Some(pl))) => match (
            spec_read_beacon(b, bl),
            spec_read_hash(b, hl),
            spec_read_proof(b, pl),
        ) {
            (Some(beacon), Some(hash_merkle_root), Some(proof)) => Some(
                BlockHeaderModel { version, beacon, hash_merkle_root, proof },
            ),
            _ => None,
        },
        _ => None,
    }
}

/// Reading a transaction only follows its offset.
pub open spec fn txn_reader() -> spec_fn(Seq<u8>, int) -> Option<()> {
    |b: Seq<u8>, e: int| Some(())
}

pub open spec fn spec_read_block(b: Seq<u8>, loc: int) -> Option<BlockModel> {
    match (
        spec_field_ref(b, loc, BLOCK_HEADER as int),
        spec_field_u32(b, loc, BLOCK_TXN_COUNT as int),
        spec_field_ref(b, loc, BLOCK_TXNS as int),
    ) {
        (Some(Some(hl)), Some(txn_count), Some(Some(tv))) => match (
            spec_read_header(b, hl),
            spec_read_vector(b, tv, txn_reader()),
        ) {
            (Some(header), Some(txns)) => Some(
                BlockModel { header, txn_count, txns_len: txns.len() },
            ),
            _ => None,
        },
        _ => None,
    }
}

fn read_signature(buf: &[u8], loc: usize) -> (r: Option<Secp256k1Signature>)
    ensures
        read_as(r, spec_read_signature(buf@, loc as int)),
{
    let rv = match field_ref(buf, loc, SIGNATURE_R) {
        Some(Some(x)) => x,
        _ => return None,
    };
    let sv = match field_ref(buf, loc, SIGNATURE_S) {
        Some(Some(x)) => x,
        _ => return None,
    };
    let r = match bytes_at(buf, rv) {
        Some(x) => x,
        None => return None,
    };
    let s = match bytes_at(buf, sv) {
        Some(x) => x,
        None => return None,
    };
    Some(
        Secp256k1Signature {
            r: vstd::slice::slice_to_vec(r),
            s: vstd::slice::slice_to_vec(s),
        },
    )
}

fn read_proof(buf: &[u8], loc: usize) -> (r: Option<LeadershipProof>)
    ensures
        read_as(r, spec_read_proof(buf@, loc as int)),
{
    let tag = match field_u8(buf, loc, PROOF_BLOCK_SIG_TYPE) {
        Some(t) => t,
        None => return None,
    };
    if tag > SIGNATURE_SECP256K1 {
        return None;
    }
    let block_sig_as_secp256k1 = if tag == SIGNATURE_SECP256K1 {
        match field_ref(buf, loc, PROOF_BLOCK_SIG) {
            None => return None,
            Some(None) => None,
            Some(Some(t)) => match read_signature(buf, t) {
                None => return None,
                Some(x) => Some(x),
            },
        }
    } else {
        None
    };
    let influence = match field_u64(buf, loc, PROOF_INFLUENCE) {
        Some(x) => x,
        None => return None,
    };
    Some(LeadershipProof { block_sig_type: tag, block_sig_as_secp256k1, influence })
}

fn read_header(buf: &[u8], loc: usize) -> (r: Option<BlockHeader>)
    ensures
        read_as(r, spec_read_header(buf@, loc as int)),
{
    let version = match field_u32(buf, loc, HEADER_VERSION) {
        Some(x) => x,
        None => return None,
    };
    let bl = match field_ref(buf, loc, HEADER_BEACON) {
        Some(Some(x)) => x,
        _ => return None,
    };
    let hl = match field_ref(buf, loc, HEADER_HASH_MERKLE_ROOT) {
        Some(Some(x)) => x,
        _ => return None,
    };
    let pl = match field_ref(buf, loc, HEADER_PROOF) {
        Some(Some(x)) => x,
        _ => return None,
    };
    let beacon = match read_beacon(buf, bl) {
        Some(x) => x,
        None => return None,
    };
    let hash_merkle_root = match read_hash(buf, hl) {
        Some(x) => x,
        None => return None,
    };
    let proof = match read_proof(buf, pl) {
        Some(x) => x,
        None => return None,
    };
    Some(BlockHeader { version, beacon, hash_merkle_root, proof })
}

/// The number of transactions in the vector at `v`, once each of their
/// offsets has been followed.
fn read_txns(buf: &[u8], v: usize) -> (r: Option<usize>)
    ensures
        r matches Some(n) ==> spec_read_vector(buf@, v as int, txn_reader()) matches Some(s)
            && s.len() == n,
        r is None ==> spec_read_vector(buf@, v as int, txn_reader()) is None,
{
    let n = match vec_len(buf, v) {
        Some(n) => n,
        None => return None,
    };
    let mut i: usize = 0;
    while i < n
        invariant
            i <= n,
            n as int == spec_vec_len(buf@, v as int)->Some_0,
            spec_vec_len(buf@, v as int) is Some,
            spec_read_list(buf@, v as int, i as nat, txn_reader()) is Some,
        decreases n - i,
    {
        if vec_elem(buf, v, i).is_none() {
            proof {
                lemma_read_list_none(buf@, v as int, (i + 1) as nat, n as nat, txn_reader());
            }
            return None;
        }
        i = i + 1;
    }
    proof {
        lemma_read_list_len(buf@, v as int, n as nat, txn_reader());
    }
    Some(n)
}

pub fn read_block(buf: &[u8], loc: usize) -> (r: Option<Block>)
    ensures
        read_as(r, spec_read_block(buf@, loc as int)),
{
    let hl = match field_ref(buf, loc, BLOCK_HEADER) {
        Some(Some(x)) => x,
        _ => return None,
    };
    let txn_count = match field_u32(buf, loc, BLOCK_TXN_COUNT) {
        Some(x) => x,
        None => return None,
    };
    let tv = match field_ref(buf, loc, BLOCK_TXNS) {
        Some(Some(x)) => x,
        _ => return None,
    };
    let header = match read_header(buf, hl) {
        Some(x) => x,
        None => return None,
    };
    let txns_len = match read_txns(buf, tv) {
        Some(x) => x,
        None => return None,
    };
    Some(Block { header, txn_count, txns_len })
}

// ---------------------------------------------------------------------------
// Inventories
// ---------------------------------------------------------------------------

/// An `InvVector` table: its type tag and its hash.
pub struct InvVector {
    pub type_: u8,
    pub hash: Hash,
}

pub struct InvVectorModel {
    pub type_: u8,
    pub hash: HashModel,
}

impl View for InvVector {
    type V = InvVectorModel;

    open spec fn view(&self) -> InvVectorModel {
        InvVectorModel { type_: self.type_, hash: self.hash@ }
    }
}

/// An `Inv` or `GetData` table: both hold a vector of inventory entries.
pub struct Inventory {
    pub inventory: Vec<InvVector>,
}

pub struct InventoryModel {
    pub inventory: Seq<InvVectorModel>,
}

impl View for Inventory {
    type V = InventoryModel;

    open spec fn view(&self) -> InventoryModel {
        InventoryModel { inventory: self.inventory@.map_values(|x: InvVector| x@) }
    }
}

#[verifier::opaque]
pub open spec fn spec_read_inv_vector(b: Seq<u8>, loc: int) -> Option<InvVectorModel> {
    match (spec_field_u8(b, loc, INV_VECTOR_TYPE as int), spec_field_ref(b, loc, INV_VECTOR_HASH as int)) {
        (Some(t), Some(Some(h))) => {
            if t > INV_TYPE_DATA_RESULT {
                None
            } else {
                match spec_read_hash(b, h) {
                    Some(hash) => Some(InvVectorModel { type_: t, hash }),
                    None => None,
                }
            }
        },
        _ => None,
    }
}

pub open spec fn inv_vector_reader() -> spec_fn(Seq<u8>, int) -> Option<InvVectorModel> {
    |b: Seq<u8>, e: int| spec_read_inv_vector(b, e)
}

pub open spec fn spec_read_inventory(b: Seq<u8>, loc: int) -> Option<InventoryModel> {
    match spec_field_ref(b, loc, INVENTORY_INVENTORY as int) {
        Some(Some(v)) => match spec_read_vector(b, v, inv_vector_reader()) {
            Some(inventory) => Some(InventoryModel { inventory }),
            None => None,
        },
        _ => None,
    }
}

fn read_inv_vector(buf: &[u8], loc: usize) -> (r: Option<InvVector>)
    ensures
        read_as(r, spec_read_inv_vector(buf@, loc as int)),
{
    reveal(spec_read_inv_vector);
    let t = match field_u8(buf, loc, INV_VECTOR_TYPE) {
        Some(t) => t,
        None => return None,
    };
    let h = match field_ref(buf, loc, INV_VECTOR_HASH) {
        Some(Some(h)) => h,
        _ => return None,
    };
    if t > INV_TYPE_DATA_RESULT {
        return None;
    }
    match read_hash(buf, h) {
        Some(hash) => Some(InvVector { type_: t, hash }),
        None => None,
    }
}

pub fn read_inventory(buf: &[u8], loc: usize) -> (r: Option<Inventory>)
    ensures
        read_as(r, spec_read_inventory(buf@, loc as int)),
{
    let v = match field_ref(buf, loc, INVENTORY_INVENTORY) {
        Some(Some(v)) => v,
        _ => return None,
    };
    let n = match vec_len(buf, v) {
        Some(n) => n,
        None => return None,
    };
    let mut out: Vec<InvVector> = Vec::new();
    let ghost mut read: Seq<InvVectorModel> = Seq::empty();
    let mut i: usize = 0;
    while i < n
        invariant
            i <= n,
            n as int == spec_vec_len(buf@, v as int)->Some_0,
            spec_vec_len(buf@, v as int) is Some,
            spec_field_ref(buf@, loc as int, INVENTORY_INVENTORY as int) == Some(Some(v as int)),
            spec_read_list(buf@, v as int, i as nat, inv_vector_reader()) == Some(read),
            read.len() == out@.len(),
            forall|j: int| 0 <= j < read.len() ==> #[trigger] read[j] == out@[j]@,
        decreases n - i,
    {
        let e = match vec_elem(buf, v, i) {
            Some(e) => e,
            None => {
                proof {
                    lemma_read_list_step_none(buf@, v as int, i as nat, inv_vector_reader());
                    lemma_read_list_none(buf@, v as int, (i + 1) as nat, n as nat, inv_vector_reader());
                }
                return None;
            },
        };
        let x = match read_inv_vector(buf, e) {
            Some(x) => x,
            None => {
                proof {
                    assert(inv_vector_reader()(buf@, e as int) is None);
                    lemma_read_list_step_none(buf@, v as int, i as nat, inv_vector_reader());
                    lemma_read_list_none(buf@, v as int, (i + 1) as nat, n as nat, inv_vector_reader());
                }
                return None;
            },
        };
        proof {
            lemma_read_list_step(buf@, v as int, i as nat, inv_vector_reader(), read, e as int, x@);
            read = read.push(x@);
        }
        out.push(x);
        i = i + 1;
    }
    proof {
        assert(out@.map_values(|x: InvVector| x@) =~= read);
    }
    Some(Inventory { inventory: out })
}

// ---------------------------------------------------------------------------
// Message
// ---------------------------------------------------------------------------

/// The `command` union of a message: its tag, and, except for the commands
/// that are never looked into, its value when present.
pub enum Command {
    NONE,
    GetBlocks(Option<GetBlocks>),
    GetPeers,
    Peers(Option<Peers>),
    Ping(Option<Ping>),
    Pong(Option<Pong>),
    Verack,
    Version(Option<Version>),
    Block(Option<Block>),
    Inv(Option<Inventory>),
    GetData(Option<Inventory>),
}

pub enum CommandModel {
    NONE,
    GetBlocks(Option<GetBlocksModel>),
    GetPeers,
    Peers(Option<PeersModel>),
    Ping(Option<Ping>),
    Pong(Option<Pong>),
    Verack,
    Version(Option<VersionModel>),
    Block(Option<BlockModel>),
    Inv(Option<InventoryModel>),
    GetData(Option<InventoryModel>),
}

pub open spec fn opt_view<T: View>(x: Option<T>) -> Option<T::V> {
    match x {
        Some(y) => Some(y@),
        None => None,
    }
}

impl View for Command {
    type V = CommandModel;

    open spec fn view(&self) -> CommandModel {
        match self {
            Command::NONE => CommandModel::NONE,
            Command::GetBlocks(x) => CommandModel::GetBlocks(opt_view(*x)),
            Command::GetPeers => CommandModel::GetPeers,
            Command::Peers(x) => CommandModel::Peers(opt_view(*x)),
            Command::Ping(x) => CommandModel::Ping(*x),
            Command::Pong(x) => CommandModel::Pong(*x),
            Command::Verack => CommandModel::Verack,
            Command::Version(x) => CommandModel::Version(opt_view(*x)),
            Command::Block(x) => CommandModel::Block(opt_view(*x)),
            Command::Inv(x) => CommandModel::Inv(opt_view(*x)),
            Command::GetData(x) => CommandModel::GetData(opt_view(*x)),
        }
    }
}

/// The root `Message` table: the magic number and the command.
pub struct Message {
    pub magic: u16,
    pub command: Command,
}

pub struct MessageModel {
    pub magic: u16,
    pub command: CommandModel,
}

impl View for Message {
    type V = MessageModel;

    open spec fn view(&self) -> MessageModel {
        MessageModel { magic: self.magic, command: self.command@ }
    }
}

/// The command whose tag is `tag` and whose table is at `t`, when present.
pub open spec fn spec_command_value(b: Seq<u8>, tag: u8, t: Option<int>) -> Option<CommandModel> {
    match t {
        None => {
            if tag == COMMAND_GET_BLOCKS {
                Some(CommandModel::GetBlocks(None))
            } else if tag == COMMAND_PEERS {
                Some(CommandModel::Peers(None))
            } else if tag == COMMAND_PING {
                Some(CommandModel::Ping(None))
            } else if tag == COMMAND_PONG {
                Some(CommandModel::Pong(None))
            } else if tag == COMMAND_VERSION {
                Some(CommandModel::Version(None))
            } else if tag == COMMAND_BLOCK {
                Some(CommandModel::Block(None))
            } else if tag == COMMAND_INV {
                Some(CommandModel::Inv(None))
            } else {
                Some(CommandModel::GetData(None))
            }
        },
        Some(t) => {
            if tag == COMMAND_GET_BLOCKS {
                match spec_read_get_blocks(b, t) {
                    Some(x) => Some(CommandModel::GetBlocks(Some(x))),
                    None => None,
                }
            } else if tag == COMMAND_PEERS {
                match spec_read_peers(b, t) {
                    Some(x) => Some(CommandModel::Peers(Some(x))),
                    None => None,
                }
            } else if tag == COMMAND_PING {
                match spec_read_ping(b, t) {
                    Some(x) => Some(CommandModel::Ping(Some(x))),
                    None => None,
                }
            } else if tag == COMMAND_PONG {
                match spec_read_pong(b, t) {
                    Some(x) => Some(CommandModel::Pong(Some(x))),
                    None => None,
                }
            } else if tag == COMMAND_VERSION {
                match spec_read_version(b, t) {
                    Some(x) => Some(CommandModel::Version(Some(x))),
                    None => None,
                }
            } else if tag == COMMAND_BLOCK {
                match spec_read_block(b, t) {
                    Some(x) => Some(CommandModel::Block(Some(x))),
                    None => None,
                }
            } else if tag == COMMAND_INV {
                match spec_read_inventory(b, t) {
                    Some(x) => Some(CommandModel::Inv(Some(x))),
                    None => None,
                }
            } else {
                match spec_read_inventory(b, t) {
                    Some(x) => Some(CommandModel::GetData(Some(x))),
                    None => None,
                }
            }
        },
    }
}

/// The `command` union of the message table at `loc`, whose tag is `tag`.
pub open spec fn spec_read_command(b: Seq<u8>, loc: int, tag: u8) -> Option<CommandModel> {
    if tag == COMMAND_NONE {
        Some(CommandModel::NONE)
    } else if tag == COMMAND_GET_PEERS {
        Some(CommandModel::GetPeers)
    } else if tag == COMMAND_VERACK {
        Some(CommandModel::Verack)
    } else if tag > COMMAND_GET_DATA {
        None
    } else {
        match spec_field_ref(b, loc, MESSAGE_COMMAND as int) {
            None => None,
            Some(t) => spec_command_value(b, tag, t),
        }
    }
}

/// The root message table of a buffer.
pub open spec fn spec_read_message(b: Seq<u8>) -> Option<MessageModel> {
    match spec_root(b) {
        None => None,
        Some(m) => match (
            spec_field_u16(b, m, MESSAGE_MAGIC as int),
            spec_field_u8(b, m, MESSAGE_COMMAND_TYPE as int),
        ) {
            (Some(magic), Some(tag)) => match spec_read_command(b, m, tag) {
                Some(command) => Some(MessageModel { magic, command }),
                None => None,
            },
            _ => None,
        },
    }
}

fn absent_command(tag: u8) -> (r: Command)
    requires
        COMMAND_GET_BLOCKS <= tag <= COMMAND_GET_DATA,
        tag != COMMAND_GET_PEERS,
        tag != COMMAND_VERACK,
    ensures
        spec_command_value(Seq::empty(), tag, None) == Some(r@),
{
    if tag == COMMAND_GET_BLOCKS {
        Command::GetBlocks(None)
    } else if tag == COMMAND_PEERS {
        Command::Peers(None)
    } else if tag == COMMAND_PING {
        Command::Ping(None)
    } else if tag == COMMAND_PONG {
        Command::Pong(None)
    } else if tag == COMMAND_VERSION {
        Command::Version(None)
    } else if tag == COMMAND_BLOCK {
        Command::Block(None)
    } else if tag == COMMAND_INV {
        Command::Inv(None)
    } else {
        Command::GetData(None)
    }
}

fn read_heartbeat_or_peers(buf: &[u8], tag: u8, t: usize) -> (r: Option<Command>)
    requires
        tag == COMMAND_PEERS || tag == COMMAND_PING || tag == COMMAND_PONG || tag == COMMAND_GET_BLOCKS,
    ensures
        read_as(r, spec_command_value(buf@, tag, Some(t as int))),
{
    if tag == COMMAND_GET_BLOCKS {
        match read_get_blocks(buf, t) {
            Some(x) => Some(Command::GetBlocks(Some(x))),
            None => None,
        }
    } else if tag == COMMAND_PEERS {
        match read_peers(buf, t) {
            Some(x) => Some(Command::Peers(Some(x))),
            None => None,
        }
    } else if tag == COMMAND_PING {
        match read_ping(buf, t) {
            Some(x) => Some(Command::Ping(Some(x))),
            None => None,
        }
    } else {
        match read_pong(buf, t) {
            Some(x) => Some(Command::Pong(Some(x))),
            None => None,
        }
    }
}

fn read_large_command(buf: &[u8], tag: u8, t: usize) -> (r: Option<Command>)
    requires
        tag == COMMAND_VERSION || tag == COMMAND_BLOCK || tag == COMMAND_INV || tag == COMMAND_GET_DATA,
    ensures
        read_as(r, spec_command_value(buf@, tag, Some(t as int))),
{
    if tag == COMMAND_VERSION {
        match read_version(buf, t) {
            Some(x) => Some(Command::Version(Some(x))),
            None => None,
        }
    } else if tag == COMMAND_BLOCK {
        match read_block(buf, t) {
            Some(x) => Some(Command::Block(Some(x))),
            None => None,
        }
    } else if tag == COMMAND_INV {
        match read_inventory(buf, t) {
            Some(x) => Some(Command::Inv(Some(x))),
            None => None,
        }
    } else {
        match read_inventory(buf, t) {
            Some(x) => Some(Command::GetData(Some(x))),
            None => None,
        }
    }
}

fn read_command(buf: &[u8], loc: usize, tag: u8) -> (r: Option<Command>)
    ensures
        read_as(r, spec_read_command(buf@, loc as int, tag)),
{
    if tag == COMMAND_NONE {
        return Some(Command::NONE);
    }
    if tag == COMMAND_GET_PEERS {
        return Some(Command::GetPeers);
    }
    if tag == COMMAND_VERACK {
        return Some(Command::Verack);
    }
    if tag > COMMAND_GET_DATA {
        return None;
    }
    match field_ref(buf, loc, MESSAGE_COMMAND) {
        None => None,
        Some(None) => Some(absent_command(tag)),
        Some(Some(t)) => {
            if tag == COMMAND_VERSION || tag == COMMAND_BLOCK || tag == COMMAND_INV || tag
                == COMMAND_GET_DATA {
                read_large_command(buf, tag, t)
            } else {
                read_heartbeat_or_peers(buf, tag, t)
            }
        },
    }
}

/// Reads the root message table of a buffer (flatbuffers `get_root`, then
/// the message's accessors), or `None` where the buffer cannot be read so.
pub fn read_message(buf: &[u8]) -> (r: Option<Message>)
    ensures
        read_as(r, spec_read_message(buf@)),
{
    let m = match root(buf) {
        Some(m) => m,
        None => return None,
    };
    let magic = match field_u16(buf, m, MESSAGE_MAGIC) {
        Some(x) => x,
        None => return None,
    };
    let tag = match field_u8(buf, m, MESSAGE_COMMAND_TYPE) {
        Some(x) => x,
        None => return None,
    };
    match read_command(buf, m, tag) {
        Some(command) => Some(Message { magic, command }),
        None => None,
    }
}

} // verus!
