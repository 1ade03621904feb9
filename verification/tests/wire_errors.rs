use flatbuffers::{FlatBufferBuilder, TableFinishedWIPOffset, WIPOffset};
use witnet_core::protocol::{
    ADDRESS_IP, ADDRESS_IP_TYPE, ADDRESS_PORT, COMMAND_NONE, COMMAND_PEERS, COMMAND_PING,
    COMMAND_VERSION, IPV4_IP, IP_ADDRESS_IPV4, IP_ADDRESS_NONE, MESSAGE_COMMAND,
    MESSAGE_COMMAND_TYPE, MESSAGE_MAGIC, PEERS_PEERS, VERSION_RECEIVER_ADDRESS,
    VERSION_SENDER_ADDRESS, VERSION_USER_AGENT,
};
use witnet_core::types::Peers;
use witnet_core::{Address, Command, IpAddress, Message, TryFrom};

fn slot(s: usize) -> i16 {
    s as i16
}

fn message_bytes(
    b: &mut FlatBufferBuilder,
    magic: u16,
    tag: u8,
    command: Option<WIPOffset<TableFinishedWIPOffset>>,
) -> Vec<u8> {
    let start = b.start_table();
    if let Some(c) = command {
        b.push_slot_always(slot(MESSAGE_COMMAND), c);
    }
    b.push_slot::<u16>(slot(MESSAGE_MAGIC), magic, 0);
    b.push_slot::<u8>(slot(MESSAGE_COMMAND_TYPE), tag, 0);
    let m = b.end_table(start);
    b.finish(m, None);
    b.finished_data().to_vec()
}

fn empty_table(b: &mut FlatBufferBuilder) -> WIPOffset<TableFinishedWIPOffset> {
    let start = b.start_table();
    b.end_table(start)
}

fn address_table(b: &mut FlatBufferBuilder, tag: u8, ip: u32, port: u16) -> WIPOffset<TableFinishedWIPOffset> {
    let ip_start = b.start_table();
    b.push_slot::<u32>(slot(IPV4_IP), ip, 0);
    let ip_table = b.end_table(ip_start);
    let start = b.start_table();
    b.push_slot_always(slot(ADDRESS_IP), ip_table);
    b.push_slot::<u16>(slot(ADDRESS_PORT), port, 0);
    b.push_slot::<u8>(slot(ADDRESS_IP_TYPE), tag, 0);
    b.end_table(start)
}

fn decode(bytes: Vec<u8>) -> Result<Message, &'static str> {
    <Message as TryFrom<Vec<u8>>>::try_from(bytes)
}

#[test]
fn command_none_is_refused() {
    let mut b = FlatBufferBuilder::new_with_capacity(64);
    let bytes = message_bytes(&mut b, 3, COMMAND_NONE, None);
    assert_eq!(decode(bytes), Err(""));
}

#[test]
fn missing_command_table_is_refused() {
    let mut b = FlatBufferBuilder::new_with_capacity(64);
    let bytes = message_bytes(&mut b, 3, COMMAND_PING, None);
    assert_eq!(decode(bytes), Err(""));
}

#[test]
fn peers_without_vector_is_refused() {
    let mut b = FlatBufferBuilder::new_with_capacity(64);
    let peers = empty_table(&mut b);
    let bytes = message_bytes(&mut b, 3, COMMAND_PEERS, Some(peers));
    assert_eq!(decode(bytes), Err(""));
}

#[test]
fn peers_drop_addresses_without_ip() {
    let mut b = FlatBufferBuilder::new_with_capacity(256);
    let a = address_table(&mut b, IP_ADDRESS_IPV4, 0x0102_0304, 5);
    let c = address_table(&mut b, IP_ADDRESS_NONE, 9, 9);
    let v = b.create_vector(&[c, a, c]);
    let start = b.start_table();
    b.push_slot_always(slot(PEERS_PEERS), v);
    let peers = b.end_table(start);
    let bytes = message_bytes(&mut b, 8, COMMAND_PEERS, Some(peers));
    assert_eq!(
        decode(bytes),
        Ok(Message {
            kind: Command::Peers(Peers { peers: vec![Address { ip: IpAddress::Ipv4 { ip: 0x0102_0304 }, port: 5 }] }),
            magic: 8,
        })
    );
}

#[test]
fn version_without_sender_is_refused() {
    let mut b = FlatBufferBuilder::new_with_capacity(256);
    let receiver = address_table(&mut b, IP_ADDRESS_IPV4, 1, 2);
    let agent = b.create_string("agent");
    let start = b.start_table();
    b.push_slot_always(slot(VERSION_USER_AGENT), agent);
    b.push_slot_always(slot(VERSION_RECEIVER_ADDRESS), receiver);
    let version = b.end_table(start);
    let bytes = message_bytes(&mut b, 1, COMMAND_VERSION, Some(version));
    assert_eq!(decode(bytes), Err(""));
}

#[test]
fn version_with_address_without_ip_is_refused() {
    let mut b = FlatBufferBuilder::new_with_capacity(256);
    let sender = address_table(&mut b, IP_ADDRESS_NONE, 1, 2);
    let receiver = address_table(&mut b, IP_ADDRESS_IPV4, 1, 2);
    let agent = b.create_string("agent");
    let start = b.start_table();
    b.push_slot_always(slot(VERSION_USER_AGENT), agent);
    b.push_slot_always(slot(VERSION_RECEIVER_ADDRESS), receiver);
    b.push_slot_always(slot(VERSION_SENDER_ADDRESS), sender);
    let version = b.end_table(start);
    let bytes = message_bytes(&mut b, 1, COMMAND_VERSION, Some(version));
    assert_eq!(decode(bytes), Err(""));
}

#[test]
fn version_without_addresses_reads_no_other_field() {
    // No user agent either: the other fields are never looked at.
    let mut b = FlatBufferBuilder::new_with_capacity(64);
    let version = empty_table(&mut b);
    let bytes = message_bytes(&mut b, 1, COMMAND_VERSION, Some(version));
    assert_eq!(decode(bytes), Err(""));
}

#[test]
fn try_decode_reports_unreadable_bytes() {
    assert_eq!(witnet_core::decode::try_decode(vec![]), None);
    assert_eq!(witnet_core::decode::try_decode(vec![0xff, 0xff, 0xff, 0x7f]), None);
    let mut b = FlatBufferBuilder::new_with_capacity(64);
    let bytes = message_bytes(&mut b, 3, COMMAND_NONE, None);
    assert_eq!(witnet_core::decode::try_decode(bytes), Some(Err("")));
    let ping = Message { kind: Command::Ping(witnet_core::types::Ping { nonce: 5 }), magic: 6 };
    let bytes = ping.clone().into();
    assert_eq!(witnet_core::decode::try_decode(bytes), Some(Ok(ping)));
}

#[test]
fn odd_offsets_are_read_byte_by_byte() {
    // A buffer whose root offset points to an odd location: the reads do
    // not need aligned locations.
    let ping = Message { kind: Command::Ping(witnet_core::types::Ping { nonce: 0x0102_0304_0506_0708 }), magic: 0x0a0b };
    let bytes: Vec<u8> = ping.clone().into();
    let mut shifted = vec![0u8; bytes.len() + 1];
    let root = u32::from_le_bytes([bytes[0], bytes[1], bytes[2], bytes[3]]) + 1;
    shifted[0..4].copy_from_slice(&root.to_le_bytes());
    shifted[5..].copy_from_slice(&bytes[4..]);
    assert_eq!(decode(shifted), Ok(ping));
}
