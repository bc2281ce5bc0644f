//! End-to-end tests of the codec against the real wire layout.

use bytes::BytesMut;
use sha2::{Digest, Sha256};

use bitcoinr_codec::message::checksum::{checksum, verify};
use bitcoinr_codec::message::command::addr::AddrPayload;
use bitcoinr_codec::message::command::version::{
    NetAddr, Service, VersionPayload, LATEST_VERSION,
};
use bitcoinr_codec::message::{decode_message, encode_message};
use bitcoinr_codec::{CodecError, Command, Message, MsgCodec, NetworkType};

fn sample_version() -> VersionPayload {
    VersionPayload {
        version: LATEST_VERSION,
        services: Service::FullNode,
        timestamp: 1_500_000_000,
        recv_services: Service::NotFullNode,
        addr_recv: NetAddr { ip: 0xffff_7f00_0001, port: 8333 },
        addr_trans: NetAddr { ip: 0xffff_7f00_0001, port: 3333 },
        nonce: 0x0123_4567_89ab_cdef,
        user_agent: Some(b"/BitcoinR:0.0/Rust:1.19-stable/".to_vec()),
        start_height: 481_824,
        relay: Some(true),
    }
}

fn encode_to_buf(msg: &Message) -> BytesMut {
    let mut dst = BytesMut::new();
    encode_message(msg.clone(), &mut dst).expect("encoding must succeed");
    dst
}

#[test]
fn get_addr_frame_is_exact() {
    let msg = Message { network_type: NetworkType::Main, command: Command::GetAddr };
    let dst = encode_to_buf(&msg);
    let expected: [u8; 24] = [
        0xf9, 0xbe, 0xb4, 0xd9, // magic
        0x67, 0x65, 0x74, 0x61, 0x64, 0x64, 0x72, 0, 0, 0, 0, 0, // "getaddr"
        0, 0, 0, 0, // payload length
        0x5d, 0xf6, 0xe0, 0xe2, // checksum of the empty payload
    ];
    assert_eq!(&dst[..], &expected[..]);
}

#[test]
fn round_trip_get_addr() {
    let msg = Message { network_type: NetworkType::Main, command: Command::GetAddr };
    let mut buf = encode_to_buf(&msg);
    let decoded = decode_message(&mut buf).expect("decode must succeed");
    assert_eq!(decoded, Some(msg));
    assert_eq!(buf.len(), 0);
}

#[test]
fn round_trip_version_full() {
    let msg = Message {
        network_type: NetworkType::Test,
        command: Command::Version(sample_version()),
    };
    let mut buf = encode_to_buf(&msg);
    let decoded = decode_message(&mut buf).expect("decode must succeed");
    assert_eq!(decoded, Some(msg));
    assert_eq!(buf.len(), 0);
}

#[test]
fn round_trip_version_no_relay() {
    let mut payload = sample_version();
    payload.relay = None;
    let msg = Message { network_type: NetworkType::RegTest, command: Command::Version(payload) };
    let mut buf = encode_to_buf(&msg);
    assert_eq!(decode_message(&mut buf).unwrap(), Some(msg));
}

#[test]
fn round_trip_version_bare() {
    let mut payload = sample_version();
    payload.user_agent = None;
    payload.relay = None;
    let msg = Message { network_type: NetworkType::Main, command: Command::Version(payload) };
    let mut buf = encode_to_buf(&msg);
    assert_eq!(decode_message(&mut buf).unwrap(), Some(msg));
}

#[test]
fn round_trip_version_default() {
    let msg = Message {
        network_type: NetworkType::Main,
        command: Command::Version(VersionPayload::default()),
    };
    let mut buf = encode_to_buf(&msg);
    assert_eq!(decode_message(&mut buf).unwrap(), Some(msg));
}

#[test]
fn round_trip_addr() {
    let msg = Message {
        network_type: NetworkType::Main,
        command: Command::Addr(AddrPayload { hoge: 42 }),
    };
    let mut buf = encode_to_buf(&msg);
    assert_eq!(decode_message(&mut buf).unwrap(), Some(msg));
}

#[test]
fn round_trip_through_msg_codec() {
    let mut codec = MsgCodec;
    let msg = Message { network_type: NetworkType::Main, command: Command::GetAddr };
    let mut buf = BytesMut::new();
    codec.encode(msg.clone(), &mut buf).unwrap();
    assert_eq!(codec.decode(&mut buf).unwrap(), Some(msg));
}

#[test]
fn version_payload_layout() {
    let msg = Message {
        network_type: NetworkType::Main,
        command: Command::Version(sample_version()),
    };
    let dst = encode_to_buf(&msg);
    let payload = &dst[24..];
    // protocol version, big endian: 70015 == 0x0001117f
    assert_eq!(&payload[0..4], &[0x00, 0x01, 0x11, 0x7f]);
    // transmitting services: FullNode == 1
    assert_eq!(&payload[4..12], &[0, 0, 0, 0, 0, 0, 0, 1]);
    // receiving services: NotFullNode == 0
    assert_eq!(&payload[20..28], &[0, 0, 0, 0, 0, 0, 0, 0]);
    // receiving address: IPv6-mapped 127.0.0.1, port 8333
    assert_eq!(
        &payload[28..46],
        &[0, 0, 0, 0, 0, 0, 0, 0, 0, 0, 0xff, 0xff, 0x7f, 0, 0, 1, 0x20, 0x8d]
    );
    // the transmitting address's service field repeats `services`
    assert_eq!(&payload[46..54], &[0, 0, 0, 0, 0, 0, 0, 1]);
    // nonce
    assert_eq!(&payload[72..80], &[0x01, 0x23, 0x45, 0x67, 0x89, 0xab, 0xcd, 0xef]);
    // user agent: length prefix, then the bytes
    assert_eq!(payload[80] as usize, 31);
    assert_eq!(&payload[81..112], &b"/BitcoinR:0.0/Rust:1.19-stable/"[..]);
    // start height 481824 == 0x00075a20, then the relay flag
    assert_eq!(&payload[112..116], &[0x00, 0x07, 0x5a, 0x20]);
    assert_eq!(payload[116], 1);
    assert_eq!(payload.len(), 117);
}

#[test]
fn checksum_of_empty_is_the_constant() {
    assert_eq!(checksum(&Vec::new()), [0x5d, 0xf6, 0xe0, 0xe2]);
}

#[test]
fn checksum_matches_double_sha256() {
    let data = b"hello".to_vec();
    let digest = Sha256::digest(Sha256::digest(&data));
    assert_eq!(checksum(&data), [digest[0], digest[1], digest[2], digest[3]]);
}

#[test]
fn checksum_self_verifies_and_rejects_bit_flips() {
    let payload = b"some payload bytes".to_vec();
    let tag = checksum(&payload);
    assert!(verify(&tag, &payload).is_ok());
    for i in 0..payload.len() {
        for bit in 0..8 {
            let mut corrupted = payload.clone();
            corrupted[i] ^= 1 << bit;
            assert_eq!(verify(&tag, &corrupted), Err(CodecError::ChecksumMismatch));
        }
    }
}

#[test]
fn partial_input_consumes_nothing() {
    // Fewer than 24 bytes: need more data, nothing consumed.
    let mut buf = BytesMut::new();
    buf.extend_from_slice(&[0xf9, 0xbe, 0xb4, 0xd9, 0x67, 0x65]);
    assert_eq!(decode_message(&mut buf).unwrap(), None);
    assert_eq!(buf.len(), 6);

    // A full header declaring 5 payload bytes, none of them buffered yet.
    let mut header = vec![0xf9, 0xbe, 0xb4, 0xd9];
    header.extend_from_slice(&[0x67, 0x65, 0x74, 0x61, 0x64, 0x64, 0x72, 0, 0, 0, 0, 0]);
    header.extend_from_slice(&[0, 0, 0, 5]);
    header.extend_from_slice(&[0x5d, 0xf6, 0xe0, 0xe2]);
    let mut buf = BytesMut::new();
    buf.extend_from_slice(&header);
    assert_eq!(decode_message(&mut buf).unwrap(), None);
    assert_eq!(buf.len(), 24);
}

#[test]
fn empty_buffer_needs_more_data() {
    let mut buf = BytesMut::new();
    assert_eq!(decode_message(&mut buf).unwrap(), None);
}

#[test]
fn unknown_command_carries_the_exact_bytes() {
    let name: [u8; 12] = *b"bogus\0\0\0\0\0\0\0";
    let mut frame = vec![0xf9, 0xbe, 0xb4, 0xd9];
    frame.extend_from_slice(&name);
    frame.extend_from_slice(&[0, 0, 0, 0]);
    frame.extend_from_slice(&[0x5d, 0xf6, 0xe0, 0xe2]);
    let mut buf = BytesMut::new();
    buf.extend_from_slice(&frame);
    assert_eq!(decode_message(&mut buf), Err(CodecError::UnknownCommand(name)));
}

#[test]
fn oversized_declared_length_is_rejected() {
    let mut frame = vec![0xf9, 0xbe, 0xb4, 0xd9];
    frame.extend_from_slice(&[0x67, 0x65, 0x74, 0x61, 0x64, 0x64, 0x72, 0, 0, 0, 0, 0]);
    frame.extend_from_slice(&[0x02, 0x00, 0x00, 0x01]); // one past the maximum
    frame.extend_from_slice(&[0x5d, 0xf6, 0xe0, 0xe2]);
    let mut buf = BytesMut::new();
    buf.extend_from_slice(&frame);
    assert_eq!(decode_message(&mut buf), Err(CodecError::FrameTooLarge));
    // Nothing was consumed and no payload was waited for.
    assert_eq!(buf.len(), 24);
}

#[test]
fn corrupted_checksum_fails_before_dispatch() {
    let msg = Message { network_type: NetworkType::Main, command: Command::GetAddr };
    let dst = encode_to_buf(&msg);
    let mut bytes = dst[..].to_vec();
    bytes[20] ^= 0xff; // corrupt the checksum field
    bytes[4] = b'x'; // and the command name: the checksum must fail first
    let mut buf = BytesMut::new();
    buf.extend_from_slice(&bytes);
    assert_eq!(decode_message(&mut buf), Err(CodecError::ChecksumMismatch));
}

#[test]
fn invalid_start_bytes_carry_the_magic() {
    let msg = Message { network_type: NetworkType::Main, command: Command::GetAddr };
    let dst = encode_to_buf(&msg);
    let mut bytes = dst[..].to_vec();
    bytes[0] = 0x00;
    let mut buf = BytesMut::new();
    buf.extend_from_slice(&bytes);
    assert_eq!(
        decode_message(&mut buf),
        Err(CodecError::InvalidStartBytes([0x00, 0xbe, 0xb4, 0xd9]))
    );
}

#[test]
fn oversized_user_agent_is_rejected() {
    let mut payload = sample_version();
    payload.user_agent = Some(vec![b'x'; 253]);
    let msg = Message { network_type: NetworkType::Main, command: Command::Version(payload) };
    let mut dst = BytesMut::new();
    assert_eq!(encode_message(msg, &mut dst), Err(CodecError::PayloadEncodeError));
    assert_eq!(dst.len(), 0);
}

#[test]
fn malformed_version_payload_is_rejected() {
    // A "version" frame whose payload is a single byte.
    let payload = [0u8];
    let digest = Sha256::digest(Sha256::digest(&payload));
    let mut frame = vec![0xf9, 0xbe, 0xb4, 0xd9];
    frame.extend_from_slice(&[0x76, 0x65, 0x72, 0x73, 0x69, 0x6f, 0x6e, 0, 0, 0, 0, 0]);
    frame.extend_from_slice(&[0, 0, 0, 1]);
    frame.extend_from_slice(&[digest[0], digest[1], digest[2], digest[3]]);
    frame.extend_from_slice(&payload);
    let mut buf = BytesMut::new();
    buf.extend_from_slice(&frame);
    assert_eq!(decode_message(&mut buf), Err(CodecError::PayloadDecodeError));
}

#[test]
fn malformed_addr_payload_is_rejected() {
    let payload = [1u8, 2, 3];
    let digest = Sha256::digest(Sha256::digest(&payload));
    let mut frame = vec![0xf9, 0xbe, 0xb4, 0xd9];
    frame.extend_from_slice(&[0x61, 0x64, 0x64, 0x72, 0, 0, 0, 0, 0, 0, 0, 0]);
    frame.extend_from_slice(&[0, 0, 0, 3]);
    frame.extend_from_slice(&[digest[0], digest[1], digest[2], digest[3]]);
    frame.extend_from_slice(&payload);
    let mut buf = BytesMut::new();
    buf.extend_from_slice(&frame);
    assert_eq!(decode_message(&mut buf), Err(CodecError::PayloadDecodeError));
}

#[test]
fn two_frames_decode_in_turn() {
    let first = Message { network_type: NetworkType::Main, command: Command::GetAddr };
    let second = Message {
        network_type: NetworkType::Main,
        command: Command::Addr(AddrPayload { hoge: 7 }),
    };
    let mut buf = BytesMut::new();
    encode_message(first.clone(), &mut buf).unwrap();
    encode_message(second.clone(), &mut buf).unwrap();
    assert_eq!(decode_message(&mut buf).unwrap(), Some(first));
    assert_eq!(decode_message(&mut buf).unwrap(), Some(second));
    assert_eq!(buf.len(), 0);
}

#[test]
fn network_magic_mapping() {
    assert_eq!(NetworkType::Main.start_string(), [0xf9, 0xbe, 0xb4, 0xd9]);
    assert_eq!(NetworkType::Test.start_string(), [0x0b, 0x11, 0x09, 0x07]);
    assert_eq!(NetworkType::RegTest.start_string(), [0xfa, 0xbf, 0xb5, 0xda]);
    for n in [NetworkType::Main, NetworkType::Test, NetworkType::RegTest] {
        assert_eq!(NetworkType::from_start_string(n.start_string()), Ok(n));
    }
    assert_eq!(
        NetworkType::from_start_string([1, 2, 3, 4]),
        Err(CodecError::InvalidStartBytes([1, 2, 3, 4]))
    );
}

#[test]
fn service_bitfields() {
    assert_eq!(Service::NotFullNode.bytes(), 0x00);
    assert_eq!(Service::FullNode.bytes(), 0x01);
}

#[test]
fn version_default_fields() {
    let d = VersionPayload::default();
    assert_eq!(d.version, LATEST_VERSION);
    assert_eq!(d.services, Service::NotFullNode);
    assert_eq!(d.recv_services, Service::NotFullNode);
    assert_eq!(d.addr_recv, NetAddr { ip: 0xffff_0000_0000, port: 8333 });
    assert_eq!(d.addr_trans, NetAddr { ip: 0xffff_0000_0000, port: 3333 });
    assert_eq!(d.nonce, 0);
    assert_eq!(d.user_agent, Some(b"/BitcoinR:0.0/Rust:1.19-stable/".to_vec()));
    assert_eq!(d.start_height, 0);
    assert_eq!(d.relay, None);
}

#[test]
fn round_trip_version_empty_user_agent() {
    let mut payload = sample_version();
    payload.user_agent = Some(Vec::new());
    let msg = Message { network_type: NetworkType::Main, command: Command::Version(payload) };
    let mut buf = encode_to_buf(&msg);
    assert_eq!(decode_message(&mut buf).unwrap(), Some(msg));
}

#[test]
fn round_trip_version_relay_without_user_agent() {
    let mut payload = sample_version();
    payload.user_agent = None;
    payload.relay = Some(false);
    // The start height's top byte is nonzero, so the trailing bytes read back
    // unambiguously.
    payload.start_height = 0x0100_0000;
    let msg = Message { network_type: NetworkType::Main, command: Command::Version(payload) };
    let mut buf = encode_to_buf(&msg);
    assert_eq!(decode_message(&mut buf).unwrap(), Some(msg));
}
