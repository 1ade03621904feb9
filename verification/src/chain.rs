use vstd::prelude::*;

verus! {

/// A SHA-256 digest.
pub type SHA256 = [u8; 32];

/// A hash, tagged with the function that made it.
#[derive(Copy, Clone, Debug, PartialEq, Eq)]
pub enum Hash {
    SHA256(SHA256),
}

/// The array of 32 bytes whose contents are `s` (a sequence of 32 bytes).
pub open spec fn spec_array32(s: Seq<u8>) -> [u8; 32] {
    choose|a: [u8; 32]| a@ == s
}

/// An array is the array of its contents.
pub proof fn lemma_array32(a: [u8; 32])
    ensures
        spec_array32(a@) == a,
{
    let c = spec_array32(a@);
    assert(c@ == a@);
    assert(c =~= a);
}

/// The hash whose digest bytes are `bytes` (a sequence of 32 bytes).
pub open spec fn spec_sha256_hash(bytes: Seq<u8>) -> Hash {
    Hash::SHA256(spec_array32(bytes))
}

/// A checkpoint and the hash of the block before it.
#[derive(Copy, Clone, Debug, PartialEq, Eq)]
pub struct CheckpointBeacon {
    pub checkpoint: u32,
    pub hash_prev_block: Hash,
}

/// An inventory entry: what kind of item, and its hash.
#[derive(Copy, Clone, Debug, PartialEq, Eq)]
pub enum InvVector {
    Error(Hash),
    Tx(Hash),
    Block(Hash),
    DataRequest(Hash),
    DataResult(Hash),
}

/// A secp256k1 signature.
#[derive(Copy, Clone, Debug, PartialEq, Eq)]
pub struct Secp256k1Signature {
    pub r: [u8; 32],
    pub s: [u8; 32],
    pub v: u8,
}

/// A signature.
#[derive(Copy, Clone, Debug, PartialEq, Eq)]
pub enum Signature {
    Secp256k1(Secp256k1Signature),
}

/// The proof that a block's author was entitled to lead.
#[derive(Copy, Clone, Debug, PartialEq, Eq)]
pub struct LeadershipProof {
    pub block_sig: Option<Signature>,
    pub influence: u64,
}

/// A block header.
#[derive(Copy, Clone, Debug, PartialEq, Eq)]
pub struct BlockHeader {
    pub version: u32,
    pub beacon: CheckpointBeacon,
    pub hash_merkle_root: Hash,
}

/// A block header with its leadership proof.
#[derive(Copy, Clone, Debug, PartialEq, Eq)]
pub struct BlockHeaderWithProof {
    pub block_header: BlockHeader,
    pub proof: LeadershipProof,
}

/// A transaction (it carries no data yet).
#[derive(Copy, Clone, Debug, PartialEq, Eq)]
pub struct Transaction;

/// A block: its header, the transaction count it declares, and its transactions.
#[derive(Clone, Debug, PartialEq, Eq)]
pub struct Block {
    pub header: BlockHeaderWithProof,
    pub txn_count: u32,
    pub txns: Vec<Transaction>,
}

/// The abstract value of a block.
pub struct BlockModel {
    pub header: BlockHeaderWithProof,
    pub txn_count: u32,
    pub txns: Seq<Transaction>,
}

impl View for Block {
    type V = BlockModel;

    open spec fn view(&self) -> BlockModel {
        BlockModel { header: self.header, txn_count: self.txn_count, txns: self.txns@ }
    }
}

} // verus!
