use chord_dht::message::api::{DhtFailure, DhtGet, DhtPut, DhtSuccess};
use chord_dht::message::p2p::{
    PeerAddress, PeerFind, PeerFound, PredecessorGet, PredecessorReply, PredecessorSet,
    StorageFailure, StorageGet, StorageGetSuccess, StoragePut, StoragePutSuccess,
};
use chord_dht::message::wire::{put_bytes, put_u16, DecodeError, EncodeError, Reader};
use chord_dht::message::Message;
use chord_dht::routing::identifier::{settle_predecessor, Identifier, Identify};

fn key(seed: u8) -> [u8; 32] {
    let mut k = [0u8; 32];
    for i in 0..32 {
        k[i] = seed.wrapping_add(i as u8);
    }
    k
}

fn address(seed: u8) -> PeerAddress {
    let mut ip = [0u8; 16];
    for i in 0..16 {
        ip[i] = seed.wrapping_mul(3).wrapping_add(i as u8);
    }
    PeerAddress { ip, port: 0x1f90 }
}

fn encode(m: &Message) -> Vec<u8> {
    let mut buffer = Vec::new();
    assert_eq!(m.write_bytes(&mut buffer), Ok(()));
    buffer
}

fn frame(code: u16, payload: &[u8]) -> Vec<u8> {
    let mut b = Vec::new();
    b.extend_from_slice(&((payload.len() + 4) as u16).to_be_bytes());
    b.extend_from_slice(&code.to_be_bytes());
    b.extend_from_slice(payload);
    b
}

fn every_kind() -> Vec<Message> {
    vec![
        Message::DhtPut(DhtPut { ttl: 300, replication: 3, key: key(1), value: vec![9, 8, 7] }),
        Message::DhtPut(DhtPut { ttl: 0, replication: 0, key: key(1), value: vec![] }),
        Message::DhtGet(DhtGet { key: key(2) }),
        Message::DhtSuccess(DhtSuccess { key: key(3), value: vec![1, 2, 3, 4] }),
        Message::DhtFailure(DhtFailure { key: key(4) }),
        Message::StorageGet(StorageGet { replication_index: 2, raw_key: key(5) }),
        Message::StoragePut(StoragePut {
            ttl: 65535,
            replication_index: 255,
            raw_key: key(6),
            value: vec![0xaa; 100],
        }),
        Message::StorageGetSuccess(StorageGetSuccess { raw_key: key(7), value: vec![5] }),
        Message::StoragePutSuccess(StoragePutSuccess { raw_key: key(8) }),
        Message::StorageFailure(StorageFailure { raw_key: key(9) }),
        Message::PeerFind(PeerFind { identifier: key(10) }),
        Message::PeerFound(PeerFound { identifier: key(11), address: address(1) }),
        Message::PredecessorGet(PredecessorGet {}),
        Message::PredecessorReply(PredecessorReply { predecessor: Some(address(2)) }),
        Message::PredecessorReply(PredecessorReply { predecessor: None }),
        Message::PredecessorSet(PredecessorSet { candidate: address(3) }),
    ]
}

#[test]
fn round_trip_of_every_kind() {
    for m in every_kind() {
        let bytes = encode(&m);
        assert_eq!(Message::new(&bytes), Ok(m));
    }
}

#[test]
fn frame_starts_with_its_length_and_code() {
    let codes: [u16; 16] = [
        650, 650, 651, 652, 653, 1000, 1001, 1002, 1003, 1004, 1050, 1051, 1052, 1053, 1053, 1054,
    ];
    for (m, code) in every_kind().iter().zip(codes.iter()) {
        let bytes = encode(m);
        assert_eq!(u16::from_be_bytes([bytes[0], bytes[1]]) as usize, bytes.len());
        assert_eq!(u16::from_be_bytes([bytes[2], bytes[3]]), *code);
        assert_eq!(m.type_code(), *code);
    }
}

#[test]
fn dht_put_bytes_are_exact() {
    let m = Message::DhtPut(DhtPut { ttl: 0x0102, replication: 7, key: [0x11; 32], value: vec![0xde, 0xad] });
    let mut expected = vec![0x00, 41, 0x02, 0x8a, 0x01, 0x02, 7];
    expected.extend_from_slice(&[0x11; 32]);
    expected.extend_from_slice(&[0xde, 0xad]);
    assert_eq!(encode(&m), expected);
}

#[test]
fn peer_found_bytes_are_exact() {
    let mut ip = [0u8; 16];
    ip[15] = 1;
    let m = Message::PeerFound(PeerFound {
        identifier: [0x22; 32],
        address: PeerAddress { ip, port: 0x1234 },
    });
    let mut expected = vec![0x00, 54, 0x04, 0x1b];
    expected.extend_from_slice(&[0x22; 32]);
    expected.extend_from_slice(&ip);
    expected.extend_from_slice(&[0x12, 0x34]);
    assert_eq!(encode(&m), expected);
}

#[test]
fn predecessor_get_is_a_bare_header() {
    assert_eq!(encode(&Message::PredecessorGet(PredecessorGet {})), vec![0x00, 0x04, 0x04, 0x1c]);
    assert_eq!(
        Message::new(&[0x00, 0x04, 0x04, 0x1c]),
        Ok(Message::PredecessorGet(PredecessorGet {}))
    );
}

#[test]
fn write_bytes_appends() {
    let mut buffer = vec![1, 2, 3];
    let m = Message::DhtGet(DhtGet { key: key(0) });
    assert_eq!(m.write_bytes(&mut buffer), Ok(()));
    assert_eq!(&buffer[..3], &[1, 2, 3]);
    assert_eq!(&buffer[3..], &encode(&m)[..]);
    let mut payload = vec![7];
    m.write_payload(&mut payload);
    assert_eq!(payload.len(), 33);
    assert_eq!(&payload[1..], &key(0));
}

#[test]
fn end_to_end_dht_get() {
    let k = key(42);
    let bytes = encode(&Message::DhtGet(DhtGet { key: k }));
    assert_eq!(bytes.len(), 36);
    assert_eq!(u16::from_be_bytes([bytes[0], bytes[1]]) as usize, bytes.len());
    let sent: Vec<u8> = bytes.clone();
    match Message::new(&sent) {
        Ok(Message::DhtGet(get)) => assert_eq!(get.key, k),
        other => panic!("unexpected {:?}", other),
    }
}

#[test]
fn size_mismatch_is_reported() {
    let mut bytes = encode(&Message::DhtGet(DhtGet { key: key(1) }));
    bytes.push(0);
    assert_eq!(Message::new(&bytes), Err(DecodeError::SizeMismatch));
    let mut short = encode(&Message::DhtGet(DhtGet { key: key(1) }));
    short.pop();
    assert_eq!(Message::new(&short), Err(DecodeError::SizeMismatch));
    assert_eq!(Message::new(&[0x00, 0x05, 0xff, 0xff]), Err(DecodeError::SizeMismatch));
    assert_eq!(Message::new(&[0x00, 0x00, 0x02, 0x8b, 1, 2, 3]), Err(DecodeError::SizeMismatch));
}

#[test]
fn size_mismatch_is_reported_below_the_header_length() {
    assert_eq!(Message::new(&[0x00, 0x09]), Err(DecodeError::SizeMismatch));
    assert_eq!(Message::new(&[0x00, 0x09, 0x02]), Err(DecodeError::SizeMismatch));
    assert_eq!(Message::new(&[0x00, 0x00]), Err(DecodeError::SizeMismatch));
    assert_eq!(Message::new(&[0x00, 0x04, 0x04]), Err(DecodeError::SizeMismatch));
    assert_eq!(Message::new(&[0x00, 0x03]), Err(DecodeError::SizeMismatch));
}

#[test]
fn size_is_checked_before_the_type_code() {
    assert_eq!(Message::new(&[0x00, 0x05, 0xff, 0xff]), Err(DecodeError::SizeMismatch));
    assert_eq!(Message::new(&[0x00, 0x04, 0xff, 0xff]), Err(DecodeError::UnknownMessageType));
}

#[test]
fn unknown_type_is_reported() {
    for code in [0u16, 1, 649, 654, 999, 1005, 1049, 1055, 65535] {
        assert_eq!(Message::new(&frame(code, &[])), Err(DecodeError::UnknownMessageType));
        assert_eq!(Message::new(&frame(code, &[0u8; 32])), Err(DecodeError::UnknownMessageType));
    }
}

#[test]
fn short_header_is_an_underflow() {
    assert_eq!(Message::new(&[]), Err(DecodeError::PayloadUnderflow));
    assert_eq!(Message::new(&[0x00]), Err(DecodeError::PayloadUnderflow));
    assert_eq!(Message::new(&[0x00, 0x02]), Err(DecodeError::PayloadUnderflow));
    assert_eq!(Message::new(&[0x00, 0x03, 0x02]), Err(DecodeError::PayloadUnderflow));
}

#[test]
fn short_payload_is_an_underflow() {
    assert_eq!(Message::new(&frame(650, &[0u8; 34])), Err(DecodeError::PayloadUnderflow));
    assert_eq!(Message::new(&frame(651, &[0u8; 31])), Err(DecodeError::PayloadUnderflow));
    assert_eq!(Message::new(&frame(652, &[])), Err(DecodeError::PayloadUnderflow));
    assert_eq!(Message::new(&frame(1000, &[0u8; 32])), Err(DecodeError::PayloadUnderflow));
    assert_eq!(Message::new(&frame(1001, &[0u8; 2])), Err(DecodeError::PayloadUnderflow));
    assert_eq!(Message::new(&frame(1051, &[0u8; 49])), Err(DecodeError::PayloadUnderflow));
    assert_eq!(Message::new(&frame(1053, &[0u8; 17])), Err(DecodeError::PayloadUnderflow));
    assert_eq!(Message::new(&frame(1054, &[])), Err(DecodeError::PayloadUnderflow));
}

#[test]
fn trailing_bytes_are_refused() {
    assert_eq!(Message::new(&frame(651, &[0u8; 33])), Err(DecodeError::TrailingBytes));
    assert_eq!(Message::new(&frame(653, &[0u8; 40])), Err(DecodeError::TrailingBytes));
    assert_eq!(Message::new(&frame(1000, &[0u8; 34])), Err(DecodeError::TrailingBytes));
    assert_eq!(Message::new(&frame(1051, &[0u8; 51])), Err(DecodeError::TrailingBytes));
    assert_eq!(Message::new(&frame(1052, &[0u8; 1])), Err(DecodeError::TrailingBytes));
    assert_eq!(Message::new(&frame(1053, &[0u8; 19])), Err(DecodeError::TrailingBytes));
    assert_eq!(Message::new(&frame(1054, &[0u8; 19])), Err(DecodeError::TrailingBytes));
}

#[test]
fn minimal_payloads_decode() {
    let mut p = vec![0x01, 0x2c, 3];
    p.extend_from_slice(&key(1));
    assert_eq!(
        Message::new(&frame(650, &p)),
        Ok(Message::DhtPut(DhtPut { ttl: 300, replication: 3, key: key(1), value: vec![] }))
    );
    let mut q = vec![4];
    q.extend_from_slice(&key(2));
    assert_eq!(
        Message::new(&frame(1000, &q)),
        Ok(Message::StorageGet(StorageGet { replication_index: 4, raw_key: key(2) }))
    );
    assert_eq!(
        Message::new(&frame(1053, &[])),
        Ok(Message::PredecessorReply(PredecessorReply { predecessor: None }))
    );
}

#[test]
fn largest_frame_fits_and_one_more_byte_does_not() {
    let fits = Message::DhtSuccess(DhtSuccess { key: key(1), value: vec![0x5a; 65535 - 4 - 32] });
    let bytes = encode(&fits);
    assert_eq!(bytes.len(), 65535);
    assert_eq!(&bytes[..2], &[0xff, 0xff]);
    assert_eq!(Message::new(&bytes), Ok(fits));
    let too_large =
        Message::DhtSuccess(DhtSuccess { key: key(1), value: vec![0x5a; 65535 - 4 - 32 + 1] });
    let mut buffer = vec![1, 2];
    assert_eq!(too_large.write_bytes(&mut buffer), Err(EncodeError::FrameTooLarge));
    assert_eq!(buffer, vec![1, 2]);
}

#[test]
fn reader_walks_the_bytes() {
    let bytes = [0x12u8, 0x34, 0x56, 1, 2, 3, 4, 9, 9];
    let mut reader = Reader::new(&bytes);
    assert_eq!(reader.remaining(), 9);
    assert_eq!(reader.read_u16(), Ok(0x1234));
    assert_eq!(reader.read_u8(), Ok(0x56));
    assert_eq!(reader.read_array::<4>(), Ok([1, 2, 3, 4]));
    assert_eq!(reader.finish(), Err(DecodeError::TrailingBytes));
    assert_eq!(reader.read_array::<3>(), Err(DecodeError::PayloadUnderflow));
    assert_eq!(reader.remaining(), 2);
    assert_eq!(reader.read_rest(), vec![9, 9]);
    assert_eq!(reader.finish(), Ok(()));
    assert_eq!(reader.read_u8(), Err(DecodeError::PayloadUnderflow));
    assert_eq!(reader.read_u16(), Err(DecodeError::PayloadUnderflow));
    assert_eq!(reader.read_rest(), Vec::<u8>::new());
}

#[test]
fn integers_are_written_big_endian() {
    let mut buffer = Vec::new();
    put_u16(&mut buffer, 0x0102);
    put_u16(&mut buffer, 650);
    put_bytes(&mut buffer, &[7, 8]);
    assert_eq!(buffer, vec![0x01, 0x02, 0x02, 0x8a, 7, 8]);
}

#[test]
fn payload_parsers_read_what_writers_wrote() {
    let found = PeerFound { identifier: key(3), address: address(4) };
    let mut payload = Vec::new();
    found.write(&mut payload);
    assert_eq!(payload.len(), 50);
    let mut reader = Reader::new(&payload);
    assert_eq!(PeerFound::parse(&mut reader), Ok(found));
    assert_eq!(reader.remaining(), 0);
    let mut at = Vec::new();
    address(5).write(&mut at);
    at.push(0xee);
    let mut reader = Reader::new(&at);
    assert_eq!(PeerAddress::parse(&mut reader), Ok(address(5)));
    assert_eq!(reader.remaining(), 1);
    let mut short = Reader::new(&at[..17]);
    assert_eq!(PeerAddress::parse(&mut short), Err(DecodeError::PayloadUnderflow));
    assert_eq!(short.remaining(), 17);
}

#[test]
fn predecessor_set_is_settled_by_the_ring() {
    let own = Identifier::generate(&[1]);
    let candidate_address = address(8);
    let bytes = encode(&Message::PredecessorSet(PredecessorSet { candidate: candidate_address }));
    let candidate = match Message::new(&bytes) {
        Ok(Message::PredecessorSet(set)) => set.candidate.get_identifier(),
        other => panic!("unexpected {:?}", other),
    };
    let before = Identifier::new(&candidate.as_bytes()[..31]);
    let accepted = candidate.is_between(&before, &own);
    let settled = settle_predecessor(before, &own, candidate);
    assert_eq!(settled == candidate, accepted);
    assert_eq!(settle_predecessor(own, &own, candidate), own);
}
