//! Epoch bookkeeping and the wire format of protocol messages.
//!
//! - `epoch`: the epoch manager's arithmetic (which epoch a timestamp falls
//!   in, and when an epoch starts).
//! - `chain` and `types`: the protocol's messages and the chain values they carry.
//! - `wire`: little-endian scalar reads and the table layout of the binary format.
//! - `protocol`: plain views of the tables of the binary format, and how each is read.
//! - `builder`: flatbuffers' builder, with a model of what has been written
//!   through it.
//! - `decode` and `encode`: from bytes to messages and back.
//! - `roundtrip`: the tables that stand for each message, and the proof that
//!   decoding what was encoded gives the message back.

mod epoch;

pub mod builder;
pub mod chain;
pub mod decode;
pub mod encode;
pub mod laws;
pub mod protocol;
pub mod roundtrip;
pub mod types;
pub mod wire;

pub use decode::TryFrom;
pub use epoch::{
    lemma_epoch_at_monotonic, lemma_epoch_at_of_epoch_timestamp, lemma_epoch_bounds,
    lemma_timestamps_in_epoch, spec_epoch_at, spec_epoch_timestamp,
};
pub use epoch::{
    BlockManager, Epoch, EpochManager, EpochManagerError, EpochManagerModel, EpochResult, GetEpoch,
};
pub use types::{Address, Command, IpAddress, Message};
