use vstd::prelude::*;

use crate::chain::{Block, BlockModel, CheckpointBeacon, InvVector};

verus! {

/// An IP address.
#[derive(Copy, Clone, Debug, PartialEq, Eq)]
pub enum IpAddress {
    Ipv4 { ip: u32 },
    Ipv6 { ip0: u32, ip1: u32, ip2: u32, ip3: u32 },
}

/// A peer's address: IP address and port.
#[derive(Copy, Clone, Debug, PartialEq, Eq)]
pub struct Address {
    pub ip: IpAddress,
    pub port: u16,
}

/// Ask for the blocks after a checkpoint.
#[derive(Copy, Clone, Debug, PartialEq, Eq)]
pub struct GetBlocks {
    pub highest_block_checkpoint: CheckpointBeacon,
}

/// Ask for peers.
#[derive(Copy, Clone, Debug, PartialEq, Eq)]
pub struct GetPeers;

/// A list of peers.
#[derive(Clone, Debug, PartialEq, Eq)]
pub struct Peers {
    pub peers: Vec<Address>,
}

/// Heartbeat request.
#[derive(Copy, Clone, Debug, PartialEq, Eq)]
pub struct Ping {
    pub nonce: u64,
}

/// Heartbeat answer.
#[derive(Copy, Clone, Debug, PartialEq, Eq)]
pub struct Pong {
    pub nonce: u64,
}

/// Acknowledges a version message.
#[derive(Copy, Clone, Debug, PartialEq, Eq)]
pub struct Verack;

/// A node's version handshake.
#[derive(Clone, Debug, PartialEq, Eq)]
pub struct Version {
    pub version: u32,
    pub timestamp: i64,
    pub capabilities: u64,
    pub sender_address: Address,
    pub receiver_address: Address,
    pub user_agent: String,
    pub last_epoch: u32,
    pub genesis: u64,
    pub nonce: u64,
}

/// Announces items by their inventory entries.
#[derive(Clone, Debug, PartialEq, Eq)]
pub struct Inv {
    pub inventory: Vec<InvVector>,
}

/// Asks for items by their inventory entries.
#[derive(Clone, Debug, PartialEq, Eq)]
pub struct GetData {
    pub inventory: Vec<InvVector>,
}

/// The command a message carries.
#[derive(Clone, Debug, PartialEq, Eq)]
pub enum Command {
    GetBlocks(GetBlocks),
    GetPeers(GetPeers),
    Peers(Peers),
    Ping(Ping),
    Pong(Pong),
    Verack(Verack),
    Version(Version),
    Block(Block),
    Inv(Inv),
    GetData(GetData),
}

/// A protocol message: a command and the network's magic number.
#[derive(Clone, Debug, PartialEq, Eq)]
pub struct Message {
    pub kind: Command,
    pub magic: u16,
}

/// The abstract value of a version handshake.
pub struct VersionModel {
    pub version: u32,
    pub timestamp: i64,
    pub capabilities: u64,
    pub sender_address: Address,
    pub receiver_address: Address,
    pub user_agent: Seq<char>,
    pub last_epoch: u32,
    pub genesis: u64,
    pub nonce: u64,
}

/// The abstract value of a command.
pub enum CommandModel {
    GetBlocks(CheckpointBeacon),
    GetPeers,
    Peers(Seq<Address>),
    Ping(u64),
    Pong(u64),
    Verack,
    Version(VersionModel),
    Block(BlockModel),
    Inv(Seq<InvVector>),
    GetData(Seq<InvVector>),
}

/// The abstract value of a message.
pub struct MessageModel {
    pub kind: CommandModel,
    pub magic: u16,
}

impl View for Version {
    type V = VersionModel;

    open spec fn view(&self) -> VersionModel {
        VersionModel {
            version: self.version,
            timestamp: self.timestamp,
            capabilities: self.capabilities,
            sender_address: self.sender_address,
            receiver_address: self.receiver_address,
            user_agent: self.user_agent@,
            last_epoch: self.last_epoch,
            genesis: self.genesis,
            nonce: self.nonce,
        }
    }
}

impl View for Command {
    type V = CommandModel;

    open spec fn view(&self) -> CommandModel {
        match self {
            Command::GetBlocks(g) => CommandModel::GetBlocks(g.highest_block_checkpoint),
            Command::GetPeers(_) => CommandModel::GetPeers,
            Command::Peers(p) => CommandModel::Peers(p.peers@),
            Command::Ping(p) => CommandModel::Ping(p.nonce),
            Command::Pong(p) => CommandModel::Pong(p.nonce),
            Command::Verack(_) => CommandModel::Verack,
            Command::Version(v) => CommandModel::Version(v@),
            Command::Block(b) => CommandModel::Block(b@),
            Command::Inv(i) => CommandModel::Inv(i.inventory@),
            Command::GetData(g) => CommandModel::GetData(g.inventory@),
        }
    }
}

impl View for Message {
    type V = MessageModel;

    open spec fn view(&self) -> MessageModel {
        MessageModel { kind: self.kind@, magic: self.magic }
    }
}

} // verus!
