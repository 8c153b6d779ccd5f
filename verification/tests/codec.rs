use bytes::BytesMut;
use tocket::clock::Timestamp;
use tocket::distributed::codec::{decode_datagram, encode_message, parse_message};
use tocket::distributed::message::calculate_checksum;
use tocket::distributed::{
    Codec, Content, ContentKind, DistributedStorageError, Message, WhitelistContent,
};

fn moment() -> Timestamp {
    Timestamp {
        year: 2024,
        ordinal: 61,
        hour: 12,
        minute: 34,
        second: 56,
        nanosecond: 789,
        offset_hours: -5,
        offset_minutes: -30,
        offset_seconds: 0,
    }
}

fn whitelist(permits: u32) -> Content {
    Content::Whitelist(WhitelistContent { sent_ts: moment(), permits })
}

const CONTENT_BYTES: [u8; 21] = [
    0, 0xE8, 0x07, 0, 0, 61, 0, 12, 34, 56, 0x15, 0x03, 0, 0, 0xFB, 0xE2, 0, 2, 0, 0, 0,
];

fn expected_bytes(checksum: u32) -> Vec<u8> {
    let mut bytes = vec![5, 0, 0, 0];
    bytes.extend_from_slice(b"0.2.0");
    bytes.extend_from_slice(&CONTENT_BYTES);
    bytes.extend_from_slice(&checksum.to_le_bytes());
    bytes
}

#[test]
fn new_message_carries_version_and_checksum() {
    let msg = Message::new(whitelist(2));
    assert_eq!(msg.version, "0.2.0");
    assert_eq!(msg.content, whitelist(2));
    let mut covered = vec![5, 0, 0, 0];
    covered.extend_from_slice(b"0.2.0");
    covered.extend_from_slice(&CONTENT_BYTES);
    assert_eq!(msg.checksum, crc32fast::hash(&covered));
    assert_eq!(msg.checksum, calculate_checksum("0.2.0", &whitelist(2)));
    assert!(msg.check_checksum().is_ok());
}

#[test]
fn checksum_depends_on_version_and_content() {
    let base = calculate_checksum("0.2.0", &whitelist(2));
    assert_ne!(base, calculate_checksum("0.2.1", &whitelist(2)));
    assert_ne!(base, calculate_checksum("0.2.0", &whitelist(3)));
    assert_eq!(
        calculate_checksum("", &Content::Unknown { tag: 1, payload: vec![] }),
        crc32fast::hash(&[0, 0, 0, 0, 1])
    );
    assert_eq!(crc32fast::hash(b"123456789"), 0xCBF4_3926);
}

#[test]
fn check_checksum_reports_both_sums() {
    let mut msg = Message::new(whitelist(2));
    let due = msg.checksum;
    msg.checksum = due ^ 1;
    match msg.check_checksum() {
        Err(DistributedStorageError::ChecksumMismatch { act, exp }) => {
            assert_eq!(act, due ^ 1);
            assert_eq!(exp, due);
        }
        other => panic!("unexpected {:?}", other),
    }
}

#[test]
fn content_kinds() {
    assert_eq!(whitelist(1).kind(), ContentKind::Whitelist);
    assert_eq!(Content::Unknown { tag: 9, payload: vec![1] }.kind(), ContentKind::Unknown);
}

#[test]
fn encoding_is_the_documented_layout() {
    let msg = Message::new(whitelist(2));
    assert_eq!(encode_message(&msg).unwrap(), expected_bytes(msg.checksum));
}

#[test]
fn encoding_agrees_with_borsh_on_each_field() {
    let msg = Message::new(whitelist(2));
    let mut bytes = borsh::to_vec(&msg.version).unwrap();
    bytes.push(0);
    let ts = moment();
    bytes.extend(borsh::to_vec(&ts.year).unwrap());
    bytes.extend(borsh::to_vec(&ts.ordinal).unwrap());
    bytes.extend(borsh::to_vec(&ts.hour).unwrap());
    bytes.extend(borsh::to_vec(&ts.minute).unwrap());
    bytes.extend(borsh::to_vec(&ts.second).unwrap());
    bytes.extend(borsh::to_vec(&ts.nanosecond).unwrap());
    bytes.extend(borsh::to_vec(&ts.offset_hours).unwrap());
    bytes.extend(borsh::to_vec(&ts.offset_minutes).unwrap());
    bytes.extend(borsh::to_vec(&ts.offset_seconds).unwrap());
    bytes.extend(borsh::to_vec(&2u32).unwrap());
    bytes.extend(borsh::to_vec(&msg.checksum).unwrap());
    assert_eq!(encode_message(&msg).unwrap(), bytes);
}

#[test]
fn negative_year_round_trips() {
    let mut ts = moment();
    ts.year = -44;
    ts.offset_hours = 0;
    ts.offset_minutes = 0;
    let msg = Message::new(Content::Whitelist(WhitelistContent { sent_ts: ts, permits: u32::MAX }));
    let bytes = encode_message(&msg).unwrap();
    assert_eq!(&bytes[10..14], &[0xD4, 0xFF, 0xFF, 0xFF]);
    assert_eq!(decode_datagram(&bytes).unwrap(), Some(msg));
}

#[test]
fn decode_gives_back_what_was_encoded() {
    let msg = Message::new(whitelist(2));
    let bytes = encode_message(&msg).unwrap();
    let back = decode_datagram(&bytes).unwrap().unwrap();
    assert_eq!(back, msg);
    assert!(back.check_checksum().is_ok());
}

#[test]
fn decode_of_nothing_is_no_message() {
    assert_eq!(decode_datagram(&[]).unwrap(), None);
}

#[test]
fn flipping_any_bit_makes_decode_fail() {
    let msg = Message::new(whitelist(2));
    let bytes = encode_message(&msg).unwrap();
    let mut mismatches = 0;
    for i in 0..bytes.len() {
        for bit in 0..8 {
            let mut broken = bytes.clone();
            broken[i] ^= 1 << bit;
            match decode_datagram(&broken) {
                Err(DistributedStorageError::ChecksumMismatch { .. }) => mismatches += 1,
                Err(DistributedStorageError::Malformed) => {}
                other => panic!("byte {} bit {}: {:?}", i, bit, other),
            }
        }
    }
    assert!(mismatches > bytes.len() * 4);
}

#[test]
fn flipped_checksum_bit_is_a_mismatch_with_both_sums() {
    let msg = Message::new(whitelist(2));
    let mut bytes = encode_message(&msg).unwrap();
    let last = bytes.len() - 1;
    bytes[last] ^= 0x80;
    match decode_datagram(&bytes) {
        Err(DistributedStorageError::ChecksumMismatch { act, exp }) => {
            assert_eq!(exp, msg.checksum);
            assert_eq!(act, msg.checksum ^ 0x8000_0000);
        }
        other => panic!("unexpected {:?}", other),
    }
}

#[test]
fn truncated_and_padded_datagrams_are_malformed() {
    let msg = Message::new(whitelist(2));
    let bytes = encode_message(&msg).unwrap();
    for len in 1..bytes.len() {
        assert!(matches!(
            decode_datagram(&bytes[..len]),
            Err(DistributedStorageError::Malformed)
        ));
    }
    let mut padded = bytes.clone();
    padded.push(0);
    assert!(matches!(decode_datagram(&padded), Err(DistributedStorageError::Malformed)));
}

#[test]
fn version_that_is_not_utf8_is_malformed() {
    let msg = Message::new(whitelist(2));
    let mut bytes = encode_message(&msg).unwrap();
    bytes[4] = 0xFF;
    assert!(parse_message(&bytes).is_none());
    assert!(matches!(decode_datagram(&bytes), Err(DistributedStorageError::Malformed)));
}

fn with_moment(ts: Timestamp) -> Vec<u8> {
    let msg = Message::new(Content::Whitelist(WhitelistContent { sent_ts: ts, permits: 1 }));
    encode_message(&msg).unwrap()
}

#[test]
fn moments_that_the_calendar_refuses_are_malformed() {
    assert!(decode_datagram(&with_moment(moment())).is_ok());
    let mut ts = moment();
    ts.ordinal = 366;
    assert!(decode_datagram(&with_moment(ts)).is_ok());
    ts.year = 2023;
    assert!(matches!(decode_datagram(&with_moment(ts)), Err(DistributedStorageError::Malformed)));
    let mut ts = moment();
    ts.ordinal = 0;
    assert!(matches!(decode_datagram(&with_moment(ts)), Err(DistributedStorageError::Malformed)));
    let mut ts = moment();
    ts.hour = 24;
    assert!(matches!(decode_datagram(&with_moment(ts)), Err(DistributedStorageError::Malformed)));
    let mut ts = moment();
    ts.minute = 60;
    assert!(matches!(decode_datagram(&with_moment(ts)), Err(DistributedStorageError::Malformed)));
    let mut ts = moment();
    ts.nanosecond = 1_000_000_000;
    assert!(matches!(decode_datagram(&with_moment(ts)), Err(DistributedStorageError::Malformed)));
    let mut ts = moment();
    ts.offset_minutes = 60;
    assert!(matches!(decode_datagram(&with_moment(ts)), Err(DistributedStorageError::Malformed)));
    let mut ts = moment();
    ts.year = 1_000_000;
    assert!(matches!(decode_datagram(&with_moment(ts)), Err(DistributedStorageError::Malformed)));
}

#[test]
fn unknown_tag_decodes_to_unknown_content() {
    let content = Content::Unknown { tag: 7, payload: vec![1, 2, 3] };
    let msg = Message::new(content.clone());
    let bytes = encode_message(&msg).unwrap();
    assert_eq!(&bytes[9..13], &[7, 1, 2, 3]);
    let back = decode_datagram(&bytes).unwrap().unwrap();
    assert_eq!(back.content, content);
    assert_eq!(back, msg);

    let empty = Message::new(Content::Unknown { tag: 255, payload: vec![] });
    let bytes = encode_message(&empty).unwrap();
    assert_eq!(bytes.len(), 4 + 5 + 1 + 4);
    assert_eq!(decode_datagram(&bytes).unwrap(), Some(empty));
}

#[test]
fn parse_ignores_the_checksum() {
    let mut msg = Message::new(whitelist(2));
    msg.checksum = 0;
    let bytes = encode_message(&msg).unwrap();
    assert_eq!(parse_message(&bytes), Some(msg));
}

#[test]
fn codec_appends_to_the_buffer() {
    let msg = Message::new(whitelist(2));
    let mut codec = Codec::default();
    let mut dst = BytesMut::new();
    dst.extend_from_slice(&[9, 9]);
    assert!(codec.encode(msg.clone(), &mut dst).is_ok());
    let mut expected = vec![9, 9];
    expected.extend(expected_bytes(msg.checksum));
    assert_eq!(&dst[..], &expected[..]);
}

#[test]
fn codec_takes_the_whole_buffer() {
    let msg = Message::new(whitelist(2));
    let mut codec = Codec::default();
    let mut buf = BytesMut::new();
    assert_eq!(codec.decode(&mut buf).unwrap(), None);
    assert!(codec.encode(msg.clone(), &mut buf).is_ok());
    assert_eq!(codec.decode(&mut buf).unwrap(), Some(msg));
    assert!(buf.is_empty());

    buf.extend_from_slice(&[1, 2, 3]);
    assert!(matches!(codec.decode(&mut buf), Err(DistributedStorageError::Malformed)));
    assert!(buf.is_empty());
}
