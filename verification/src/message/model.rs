//! What a message is, and which bytes stand for it.

use super::wire::{be16, u16_bytes, DecodeError};
use vstd::prelude::*;

verus! {

pub const DHT_PUT: u16 = 650;

pub const DHT_GET: u16 = 651;

pub const DHT_SUCCESS: u16 = 652;

pub const DHT_FAILURE: u16 = 653;

pub const STORAGE_GET: u16 = 1000;

pub const STORAGE_PUT: u16 = 1001;

pub const STORAGE_GET_SUCCESS: u16 = 1002;

pub const STORAGE_PUT_SUCCESS: u16 = 1003;

pub const STORAGE_FAILURE: u16 = 1004;

pub const PEER_FIND: u16 = 1050;

pub const PEER_FOUND: u16 = 1051;

pub const PREDECESSOR_GET: u16 = 1052;

pub const PREDECESSOR_REPLY: u16 = 1053;

pub const PREDECESSOR_SET: u16 = 1054;

/// The length of the frame header: total size and type code.
pub const HEADER_LEN: usize = 4;

/// The longest frame that the 16-bit size field can describe.
pub const MAX_FRAME_LEN: usize = 65535;

/// Whether `code` names a message.
pub open spec fn is_known_code(code: u16) -> bool {
    650 <= code <= 653 || 1000 <= code <= 1004 || 1050 <= code <= 1054
}

/// The address of a peer as a mathematical value.
pub struct AddressView {
    pub ip: Seq<u8>,
    pub port: u16,
}

/// A message as a mathematical value.
pub enum MessageView {
    DhtPut { ttl: u16, replication: u8, key: Seq<u8>, value: Seq<u8> },
    DhtGet { key: Seq<u8> },
    DhtSuccess { key: Seq<u8>, value: Seq<u8> },
    DhtFailure { key: Seq<u8> },
    StorageGet { replication_index: u8, raw_key: Seq<u8> },
    StoragePut { ttl: u16, replication_index: u8, raw_key: Seq<u8>, value: Seq<u8> },
    StorageGetSuccess { raw_key: Seq<u8>, value: Seq<u8> },
    StoragePutSuccess { raw_key: Seq<u8> },
    StorageFailure { raw_key: Seq<u8> },
    PeerFind { identifier: Seq<u8> },
    PeerFound { identifier: Seq<u8>, address: AddressView },
    PredecessorGet,
    PredecessorReply { predecessor: Option<AddressView> },
    PredecessorSet { candidate: AddressView },
}

/// The 18 bytes of an address: 16 of the IP, then the port.
pub open spec fn address_bytes(a: AddressView) -> Seq<u8> {
    a.ip + u16_bytes(a.port)
}

/// The address that 18 bytes stand for.
pub open spec fn address_at(p: Seq<u8>, at: int) -> AddressView {
    AddressView { ip: p.subrange(at, at + 16), port: be16(p[at + 16], p[at + 17]) }
}

impl AddressView {
    /// The IP has 16 bytes.
    pub open spec fn well_formed(self) -> bool {
        self.ip.len() == 16
    }
}

impl MessageView {
    /// Every key and identifier has 32 bytes and every IP has 16.
    pub open spec fn well_formed(self) -> bool {
        match self {
            MessageView::DhtPut { key, .. } => key.len() == 32,
            MessageView::DhtGet { key } => key.len() == 32,
            MessageView::DhtSuccess { key, .. } => key.len() == 32,
            MessageView::DhtFailure { key } => key.len() == 32,
            MessageView::StorageGet { raw_key, .. } => raw_key.len() == 32,
            MessageView::StoragePut { raw_key, .. } => raw_key.len() == 32,
            MessageView::StorageGetSuccess { raw_key, .. } => raw_key.len() == 32,
            MessageView::StoragePutSuccess { raw_key } => raw_key.len() == 32,
            MessageView::StorageFailure { raw_key } => raw_key.len() == 32,
            MessageView::PeerFind { identifier } => identifier.len() == 32,
            MessageView::PeerFound { identifier, address } => identifier.len() == 32
                && address.well_formed(),
            MessageView::PredecessorGet => true,
            MessageView::PredecessorReply { predecessor } => match predecessor {
                Some(a) => a.well_formed(),
                None => true,
            },
            MessageView::PredecessorSet { candidate } => candidate.well_formed(),
        }
    }

    /// The type code that tags the message on the wire.
    pub open spec fn code(self) -> u16 {
        match self {
            MessageView::DhtPut { .. } => DHT_PUT,
            MessageView::DhtGet { .. } => DHT_GET,
            MessageView::DhtSuccess { .. } => DHT_SUCCESS,
            MessageView::DhtFailure { .. } => DHT_FAILURE,
            MessageView::StorageGet { .. } => STORAGE_GET,
            MessageView::StoragePut { .. } => STORAGE_PUT,
            MessageView::StorageGetSuccess { .. } => STORAGE_GET_SUCCESS,
            MessageView::StoragePutSuccess { .. } => STORAGE_PUT_SUCCESS,
            MessageView::StorageFailure { .. } => STORAGE_FAILURE,
            MessageView::PeerFind { .. } => PEER_FIND,
            MessageView::PeerFound { .. } => PEER_FOUND,
            MessageView::PredecessorGet => PREDECESSOR_GET,
            MessageView::PredecessorReply { .. } => PREDECESSOR_REPLY,
            MessageView::PredecessorSet { .. } => PREDECESSOR_SET,
        }
    }

    /// The payload: the fields in wire order.
    pub open spec fn payload(self) -> Seq<u8> {
        match self {
            MessageView::DhtPut { ttl, replication, key, value } => u16_bytes(ttl)
                + seq![replication] + key + value,
            MessageView::DhtGet { key } => key,
            MessageView::DhtSuccess { key, value } => key + value,
            MessageView::DhtFailure { key } => key,
            MessageView::StorageGet { replication_index, raw_key } => seq![replication_index]
                + raw_key,
            MessageView::StoragePut { ttl, replication_index, raw_key, value } => u16_bytes(ttl)
                + seq![replication_index] + raw_key + value,
            MessageView::StorageGetSuccess { raw_key, value } => raw_key + value,
            MessageView::StoragePutSuccess { raw_key } => raw_key,
            MessageView::StorageFailure { raw_key } => raw_key,
            MessageView::PeerFind { identifier } => identifier,
            MessageView::PeerFound { identifier, address } => identifier + address_bytes(address),
            MessageView::PredecessorGet => Seq::<u8>::empty(),
            MessageView::PredecessorReply { predecessor } => match predecessor {
                Some(a) => address_bytes(a),
                None => Seq::<u8>::empty(),
            },
            MessageView::PredecessorSet { candidate } => address_bytes(candidate),
        }
    }

    /// The length of the whole frame, header included.
    pub open spec fn frame_len(self) -> nat {
        HEADER_LEN as nat + self.payload().len()
    }

    /// Whether the frame's length fits the size field.
    pub open spec fn fits(self) -> bool {
        self.frame_len() <= MAX_FRAME_LEN
    }

    /// The frame: total size, type code, payload.
    pub open spec fn frame(self) -> Seq<u8> {
        u16_bytes(self.frame_len() as u16) + u16_bytes(self.code()) + self.payload()
    }
}

/// What a payload of exactly `expected` bytes decodes to: `v` at that length,
/// an underflow below it, trailing bytes above it.
pub open spec fn exactly(len: nat, expected: nat, v: MessageView) -> Result<
    MessageView,
    DecodeError,
> {
    if len < expected {
        Err(DecodeError::PayloadUnderflow)
    } else if len > expected {
        Err(DecodeError::TrailingBytes)
    } else {
        Ok(v)
    }
}

/// What a payload of at least `expected` bytes decodes to.
pub open spec fn at_least(len: nat, expected: nat, v: MessageView) -> Result<
    MessageView,
    DecodeError,
> {
    if len < expected {
        Err(DecodeError::PayloadUnderflow)
    } else {
        Ok(v)
    }
}

/// The message that payload `p` stands for under type code `code`.
pub open spec fn decode_payload(code: u16, p: Seq<u8>) -> Result<MessageView, DecodeError> {
    if code == DHT_PUT {
        at_least(
            p.len(),
            35,
            MessageView::DhtPut {
                ttl: be16(p[0], p[1]),
                replication: p[2],
                key: p.subrange(3, 35),
                value: p.skip(35),
            },
        )
    } else if code == DHT_GET {
        exactly(p.len(), 32, MessageView::DhtGet { key: p })
    } else if code == DHT_SUCCESS {
        at_least(p.len(), 32, MessageView::DhtSuccess { key: p.take(32), value: p.skip(32) })
    } else if code == DHT_FAILURE {
        exactly(p.len(), 32, MessageView::DhtFailure { key: p })
    } else if code == STORAGE_GET {
        exactly(
            p.len(),
            33,
            MessageView::StorageGet { replication_index: p[0], raw_key: p.skip(1) },
        )
    } else if code == STORAGE_PUT {
        at_least(
            p.len(),
            35,
            MessageView::StoragePut {
                ttl: be16(p[0], p[1]),
                replication_index: p[2],
                raw_key: p.subrange(3, 35),
                value: p.skip(35),
            },
        )
    } else if code == STORAGE_GET_SUCCESS {
        at_least(
            p.len(),
            32,
            MessageView::StorageGetSuccess { raw_key: p.take(32), value: p.skip(32) },
        )
    } else if code == STORAGE_PUT_SUCCESS {
        exactly(p.len(), 32, MessageView::StoragePutSuccess { raw_key: p })
    } else if code == STORAGE_FAILURE {
        exactly(p.len(), 32, MessageView::StorageFailure { raw_key: p })
    } else if code == PEER_FIND {
        exactly(p.len(), 32, MessageView::PeerFind { identifier: p })
    } else if code == PEER_FOUND {
        exactly(
            p.len(),
            50,
            MessageView::PeerFound { identifier: p.take(32), address: address_at(p, 32) },
        )
    } else if code == PREDECESSOR_GET {
        exactly(p.len(), 0, MessageView::PredecessorGet)
    } else if code == PREDECESSOR_REPLY {
        if p.len() == 0 {
            Ok(MessageView::PredecessorReply { predecessor: None })
        } else {
            exactly(
                p.len(),
                18,
                MessageView::PredecessorReply { predecessor: Some(address_at(p, 0)) },
            )
        }
    } else if code == PREDECESSOR_SET {
        exactly(p.len(), 18, MessageView::PredecessorSet { candidate: address_at(p, 0) })
    } else {
        Err(DecodeError::UnknownMessageType)
    }
}

/// The message that buffer `b` stands for. The declared size is held against
/// the buffer's length as soon as its two bytes are there, before anything
/// else is looked at; then the type code is read and the payload is decoded
/// under it.
pub open spec fn decode(b: Seq<u8>) -> Result<MessageView, DecodeError> {
    if b.len() < 2 {
        Err(DecodeError::PayloadUnderflow)
    } else if be16(b[0], b[1]) != b.len() {
        Err(DecodeError::SizeMismatch)
    } else if b.len() < HEADER_LEN {
        Err(DecodeError::PayloadUnderflow)
    } else {
        decode_payload(be16(b[2], b[3]), b.skip(4))
    }
}

/// The outcome of a parse as a mathematical value.
pub open spec fn outcome<T: View<V = MessageView>>(r: Result<T, DecodeError>) -> Result<
    MessageView,
    DecodeError,
> {
    match r {
        Ok(m) => Ok(m@),
        Err(e) => Err(e),
    }
}

/// Encoding and then decoding a message gives the message back.
pub proof fn lemma_round_trip(m: MessageView)
    requires
        m.well_formed(),
        m.fits(),
    ensures
        decode(m.frame()) == Ok::<MessageView, DecodeError>(m),
{
    let b = m.frame();
    let p = m.payload();
    assert(b.skip(4) =~= p);
    assert(b.len() == m.frame_len());
    lemma_payload_round_trip(m);
}

/// Decoding the payload of a message under its code gives the message back.
pub proof fn lemma_payload_round_trip(m: MessageView)
    requires
        m.well_formed(),
    ensures
        decode_payload(m.code(), m.payload()) == Ok::<MessageView, DecodeError>(m),
{
    let p = m.payload();
    match m {
        MessageView::DhtPut { ttl, replication, key, value } => {
            assert(p.subrange(3, 35) =~= key);
            assert(p.skip(35) =~= value);
        },
        MessageView::DhtGet { key } => {},
        MessageView::DhtSuccess { key, value } => {
            assert(p.take(32) =~= key);
            assert(p.skip(32) =~= value);
        },
        MessageView::DhtFailure { key } => {},
        MessageView::StorageGet { replication_index, raw_key } => {
            assert(p.skip(1) =~= raw_key);
        },
        MessageView::StoragePut { ttl, replication_index, raw_key, value } => {
            assert(p.subrange(3, 35) =~= raw_key);
            assert(p.skip(35) =~= value);
        },
        MessageView::StorageGetSuccess { raw_key, value } => {
            assert(p.take(32) =~= raw_key);
            assert(p.skip(32) =~= value);
        },
        MessageView::StoragePutSuccess { raw_key } => {},
        MessageView::StorageFailure { raw_key } => {},
        MessageView::PeerFind { identifier } => {},
        MessageView::PeerFound { identifier, address } => {
            assert(p.take(32) =~= identifier);
            assert(p.subrange(32, 48) =~= address.ip);
        },
        MessageView::PredecessorGet => {},
        MessageView::PredecessorReply { predecessor } => {
            match predecessor {
                Some(a) => {
                    assert(p.subrange(0, 16) =~= a.ip);
                },
                None => {},
            }
        },
        MessageView::PredecessorSet { candidate } => {
            assert(p.subrange(0, 16) =~= candidate.ip);
        },
    }
}

/// A buffer that decodes is the frame of the message that it decodes to, so
/// no two buffers stand for one message.
pub proof fn lemma_decoded_frame(b: Seq<u8>)
    requires
        decode(b) is Ok,
    ensures
        decode(b)->Ok_0.well_formed(),
        decode(b)->Ok_0.fits(),
        decode(b)->Ok_0.frame() == b,
{
    let m = decode(b)->Ok_0;
    let p = b.skip(4);
    assert(u16_bytes(be16(b[0], b[1])) =~= b.subrange(0, 2));
    assert(u16_bytes(be16(b[2], b[3])) =~= b.subrange(2, 4));
    assert(m.code() == be16(b[2], b[3]));
    match m {
        MessageView::PeerFound { identifier, address } => {
            assert(u16_bytes(address.port) =~= p.subrange(48, 50));
            assert(m.payload() =~= p);
        },
        MessageView::PredecessorReply { predecessor } => {
            if p.len() != 0 {
                assert(u16_bytes(predecessor->Some_0.port) =~= p.subrange(16, 18));
            }
            assert(m.payload() =~= p);
        },
        MessageView::PredecessorSet { candidate } => {
            assert(u16_bytes(candidate.port) =~= p.subrange(16, 18));
            assert(m.payload() =~= p);
        },
        MessageView::DhtPut { ttl, .. } => {
            assert(u16_bytes(ttl) =~= p.subrange(0, 2));
            assert(m.payload() =~= p);
        },
        MessageView::StoragePut { ttl, .. } => {
            assert(u16_bytes(ttl) =~= p.subrange(0, 2));
            assert(m.payload() =~= p);
        },
        _ => {
            assert(m.payload() =~= p);
        },
    }
    assert(m.frame() =~= b);
}

/// A buffer whose first two bytes do not state its length is refused for
/// that, whatever else it holds and however short it is.
pub proof fn lemma_size_enforced(b: Seq<u8>)
    requires
        b.len() >= 2,
        be16(b[0], b[1]) != b.len(),
    ensures
        decode(b) == Err::<MessageView, DecodeError>(DecodeError::SizeMismatch),
{
}

/// A buffer with a truthful size field and a type code that names no message
/// is refused for its code.
pub proof fn lemma_unknown_code_rejected(b: Seq<u8>)
    requires
        b.len() >= HEADER_LEN,
        be16(b[0], b[1]) == b.len(),
        !is_known_code(be16(b[2], b[3])),
    ensures
        decode(b) == Err::<MessageView, DecodeError>(DecodeError::UnknownMessageType),
{
}

/// A buffer whose code names a message is never refused for its code.
pub proof fn lemma_known_code_accepted(code: u16, p: Seq<u8>)
    requires
        is_known_code(code),
    ensures
        decode_payload(code, p) != Err::<MessageView, DecodeError>(
            DecodeError::UnknownMessageType,
        ),
{
}

} // verus!
