//! The wire protocol: one frame holds a total size, a type code and the
//! payload of one message.

pub mod api;
pub mod model;
pub mod p2p;
pub mod wire;

use model::{
    decode, MessageView, DHT_FAILURE, DHT_GET, DHT_PUT, DHT_SUCCESS, HEADER_LEN, MAX_FRAME_LEN,
    PEER_FIND, PEER_FOUND, PREDECESSOR_GET, PREDECESSOR_REPLY, PREDECESSOR_SET, STORAGE_FAILURE,
    STORAGE_GET, STORAGE_GET_SUCCESS, STORAGE_PUT, STORAGE_PUT_SUCCESS,
};
use vstd::prelude::*;
use wire::{put_bytes, put_u16, DecodeError, EncodeError, Reader};

verus! {

/// The messages of the protocol, each with the struct that holds its
/// contents.
#[derive(Clone, Debug, PartialEq, Eq)]
pub enum Message {
    DhtPut(api::DhtPut),
    DhtGet(api::DhtGet),
    DhtSuccess(api::DhtSuccess),
    DhtFailure(api::DhtFailure),
    StorageGet(p2p::StorageGet),
    StoragePut(p2p::StoragePut),
    StorageGetSuccess(p2p::StorageGetSuccess),
    StoragePutSuccess(p2p::StoragePutSuccess),
    StorageFailure(p2p::StorageFailure),
    PeerFind(p2p::PeerFind),
    PeerFound(p2p::PeerFound),
    PredecessorGet(p2p::PredecessorGet),
    PredecessorReply(p2p::PredecessorReply),
    PredecessorSet(p2p::PredecessorSet),
}

impl View for Message {
    type V = MessageView;

    open spec fn view(&self) -> MessageView {
        match self {
            Message::DhtPut(m) => m@,
            Message::DhtGet(m) => m@,
            Message::DhtSuccess(m) => m@,
            Message::DhtFailure(m) => m@,
            Message::StorageGet(m) => m@,
            Message::StoragePut(m) => m@,
            Message::StorageGetSuccess(m) => m@,
            Message::StoragePutSuccess(m) => m@,
            Message::StorageFailure(m) => m@,
            Message::PeerFind(m) => m@,
            Message::PeerFound(m) => m@,
            Message::PredecessorGet(m) => m@,
            Message::PredecessorReply(m) => m@,
            Message::PredecessorSet(m) => m@,
        }
    }
}

impl Message {
    /// Decodes the frame that `buffer` holds. The buffer must be exactly one
    /// frame: its first two bytes state its length, and a buffer of any other
    /// length is refused for its size before its type code is read.
    pub fn new(buffer: &[u8]) -> (r: Result<Self, DecodeError>)
        ensures
            model::outcome(r) == decode(buffer@),
    {
        let mut reader = Reader::new(buffer);
        let size = reader.read_u16()?;
        if buffer.len() != size as usize {
            return Err(DecodeError::SizeMismatch);
        }
        let msg_type = reader.read_u16()?;
        assert(reader.rest() =~= buffer@.skip(4));
        let msg = match msg_type {
            DHT_PUT => Message::DhtPut(api::DhtPut::parse(&mut reader)?),
            DHT_GET => Message::DhtGet(api::DhtGet::parse(&mut reader)?),
            DHT_SUCCESS => Message::DhtSuccess(api::DhtSuccess::parse(&mut reader)?),
            DHT_FAILURE => Message::DhtFailure(api::DhtFailure::parse(&mut reader)?),
            STORAGE_GET => Message::StorageGet(p2p::StorageGet::parse(&mut reader)?),
            STORAGE_PUT => Message::StoragePut(p2p::StoragePut::parse(&mut reader)?),
            STORAGE_GET_SUCCESS => Message::StorageGetSuccess(
                p2p::StorageGetSuccess::parse(&mut reader)?,
            ),
            STORAGE_PUT_SUCCESS => Message::StoragePutSuccess(
                p2p::StoragePutSuccess::parse(&mut reader)?,
            ),
            STORAGE_FAILURE => Message::StorageFailure(p2p::StorageFailure::parse(&mut reader)?),
            PEER_FIND => Message::PeerFind(p2p::PeerFind::parse(&mut reader)?),
            PEER_FOUND => Message::PeerFound(p2p::PeerFound::parse(&mut reader)?),
            PREDECESSOR_GET => Message::PredecessorGet(p2p::PredecessorGet::parse(&mut reader)?),
            PREDECESSOR_REPLY => Message::PredecessorReply(
                p2p::PredecessorReply::parse(&mut reader)?,
            ),
            PREDECESSOR_SET => Message::PredecessorSet(p2p::PredecessorSet::parse(&mut reader)?),
            _ => {
                return Err(DecodeError::UnknownMessageType);
            },
        };
        Ok(msg)
    }

    /// The type code that tags this message on the wire.
    pub fn type_code(&self) -> (r: u16)
        ensures
            r == self@.code(),
    {
        match self {
            Message::DhtPut(_) => DHT_PUT,
            Message::DhtGet(_) => DHT_GET,
            Message::DhtSuccess(_) => DHT_SUCCESS,
            Message::DhtFailure(_) => DHT_FAILURE,
            Message::StorageGet(_) => STORAGE_GET,
            Message::StoragePut(_) => STORAGE_PUT,
            Message::StorageGetSuccess(_) => STORAGE_GET_SUCCESS,
            Message::StoragePutSuccess(_) => STORAGE_PUT_SUCCESS,
            Message::StorageFailure(_) => STORAGE_FAILURE,
            Message::PeerFind(_) => PEER_FIND,
            Message::PeerFound(_) => PEER_FOUND,
            Message::PredecessorGet(_) => PREDECESSOR_GET,
            Message::PredecessorReply(_) => PREDECESSOR_REPLY,
            Message::PredecessorSet(_) => PREDECESSOR_SET,
        }
    }

    /// Appends the payload of this message.
    pub fn write_payload(&self, buffer: &mut Vec<u8>)
        ensures
            final(buffer)@ == old(buffer)@ + self@.payload(),
    {
        match self {
            Message::DhtPut(m) => m.write(buffer),
            Message::DhtGet(m) => m.write(buffer),
            Message::DhtSuccess(m) => m.write(buffer),
            Message::DhtFailure(m) => m.write(buffer),
            Message::StorageGet(m) => m.write(buffer),
            Message::StoragePut(m) => m.write(buffer),
            Message::StorageGetSuccess(m) => m.write(buffer),
            Message::StoragePutSuccess(m) => m.write(buffer),
            Message::StorageFailure(m) => m.write(buffer),
            Message::PeerFind(m) => m.write(buffer),
            Message::PeerFound(m) => m.write(buffer),
            Message::PredecessorGet(m) => m.write(buffer),
            Message::PredecessorReply(m) => m.write(buffer),
            Message::PredecessorSet(m) => m.write(buffer),
        }
    }

    /// Appends the frame of this message to `buffer`. A message whose frame
    /// would be longer than 65535 bytes has none: the buffer is then left as
    /// it was.
    pub fn write_bytes(&self, buffer: &mut Vec<u8>) -> (r: Result<(), EncodeError>)
        ensures
            self@.fits() ==> r == Ok::<(), EncodeError>(()) && final(buffer)@ == old(buffer)@
                + self@.frame(),
            !self@.fits() ==> r == Err::<(), EncodeError>(EncodeError::FrameTooLarge)
                && final(buffer)@ == old(buffer)@,
    {
        let mut payload: Vec<u8> = Vec::new();
        self.write_payload(&mut payload);
        assert(payload@ =~= self@.payload());
        if payload.len() > MAX_FRAME_LEN - HEADER_LEN {
            return Err(EncodeError::FrameTooLarge);
        }
        let size: usize = payload.len() + HEADER_LEN;
        put_u16(buffer, size as u16);
        put_u16(buffer, self.type_code());
        put_bytes(buffer, payload.as_slice());
        assert(final(buffer)@ =~= old(buffer)@ + self@.frame());
        Ok(())
    }
}

/// A message that was written and then read again is the same message.
pub proof fn lemma_message_round_trip(m: Message)
    requires
        m@.fits(),
    ensures
        decode(m@.frame()) == Ok::<MessageView, DecodeError>(m@),
{
    model::lemma_round_trip(m@);
}

} // verus!
