//! The messages that nodes exchange among themselves.

use super::model::{
    address_at, address_bytes, decode_payload, outcome, AddressView, MessageView, PEER_FIND,
    PEER_FOUND, PREDECESSOR_GET, PREDECESSOR_REPLY, PREDECESSOR_SET, STORAGE_FAILURE,
    STORAGE_GET, STORAGE_GET_SUCCESS, STORAGE_PUT, STORAGE_PUT_SUCCESS,
};
use super::wire::{put_bytes, put_u16, DecodeError, Reader};
use vstd::prelude::*;

verus! {

/// Where a peer listens: an IPv6 address, or an IPv4 address mapped into
/// one, and a port.
#[derive(Clone, Copy, Debug, PartialEq, Eq)]
pub struct PeerAddress {
    pub ip: [u8; 16],
    pub port: u16,
}

impl View for PeerAddress {
    type V = AddressView;

    open spec fn view(&self) -> AddressView {
        AddressView { ip: self.ip@, port: self.port }
    }
}

impl PeerAddress {
    /// Reads the 16 bytes of the IP and the port. Nothing is read where fewer
    /// than 18 bytes are left.
    pub fn parse(reader: &mut Reader) -> (r: Result<Self, DecodeError>)
        ensures
            old(reader).rest().len() >= 18 ==> final(reader).rest() == old(reader).rest().skip(18)
                && match r {
                Ok(a) => a@ == address_at(old(reader).rest(), 0),
                Err(_) => false,
            },
            old(reader).rest().len() < 18 ==> r == Err::<Self, DecodeError>(
                DecodeError::PayloadUnderflow,
            ) && final(reader).rest() == old(reader).rest(),
    {
        let ghost p = reader.rest();
        if reader.remaining() < 18 {
            return Err(DecodeError::PayloadUnderflow);
        }
        let ip = reader.read_array::<16>()?;
        let port = reader.read_u16()?;
        proof {
            assert(ip@ =~= p.subrange(0, 16));
            assert(final(reader).rest() =~= p.skip(18));
        }
        Ok(PeerAddress { ip, port })
    }

    /// Appends the 18 bytes of the address.
    pub fn write(&self, buffer: &mut Vec<u8>)
        ensures
            final(buffer)@ == old(buffer)@ + address_bytes(self@),
    {
        put_bytes(buffer, self.ip.as_slice());
        put_u16(buffer, self.port);
        assert(final(buffer)@ =~= old(buffer)@ + address_bytes(self@));
    }
}

/// Asks the node that owns `raw_key` for the value stored under it.
#[derive(Clone, Debug, PartialEq, Eq)]
pub struct StorageGet {
    /// Which of the replicas is asked.
    pub replication_index: u8,
    pub raw_key: [u8; 32],
}

impl View for StorageGet {
    type V = MessageView;

    open spec fn view(&self) -> MessageView {
        MessageView::StorageGet { replication_index: self.replication_index, raw_key: self.raw_key@ }
    }
}

impl StorageGet {
    /// Reads the payload: replication index, then the key.
    pub fn parse(reader: &mut Reader) -> (r: Result<Self, DecodeError>)
        ensures
            outcome(r) == decode_payload(STORAGE_GET, old(reader).rest()),
            r is Ok ==> final(reader).rest().len() == 0,
    {
        let ghost p = reader.rest();
        let replication_index = reader.read_u8()?;
        let raw_key = reader.read_array::<32>()?;
        reader.finish()?;
        proof {
            assert(raw_key@ =~= p.skip(1));
        }
        Ok(StorageGet { replication_index, raw_key })
    }

    /// Appends the payload.
    pub fn write(&self, buffer: &mut Vec<u8>)
        ensures
            final(buffer)@ == old(buffer)@ + self@.payload(),
    {
        buffer.push(self.replication_index);
        put_bytes(buffer, self.raw_key.as_slice());
        assert(final(buffer)@ =~= old(buffer)@ + self@.payload());
    }
}

/// Asks the node that owns `raw_key` to store `value` under it.
#[derive(Clone, Debug, PartialEq, Eq)]
pub struct StoragePut {
    /// How many seconds the value should be kept.
    pub ttl: u16,
    /// Which of the replicas is written.
    pub replication_index: u8,
    pub raw_key: [u8; 32],
    pub value: Vec<u8>,
}

impl View for StoragePut {
    type V = MessageView;

    open spec fn view(&self) -> MessageView {
        MessageView::StoragePut {
            ttl: self.ttl,
            replication_index: self.replication_index,
            raw_key: self.raw_key@,
            value: self.value@,
        }
    }
}

impl StoragePut {
    /// Reads the payload: time to live, replication index, key, then the value
    /// up to the end of the frame.
    pub fn parse(reader: &mut Reader) -> (r: Result<Self, DecodeError>)
        ensures
            outcome(r) == decode_payload(STORAGE_PUT, old(reader).rest()),
            r is Ok ==> final(reader).rest().len() == 0,
    {
        let ghost p = reader.rest();
        let ttl = reader.read_u16()?;
        let replication_index = reader.read_u8()?;
        let raw_key = reader.read_array::<32>()?;
        let value = reader.read_rest();
        proof {
            assert(raw_key@ =~= p.subrange(3, 35));
            assert(value@ =~= p.skip(35));
        }
        Ok(StoragePut { ttl, replication_index, raw_key, value })
    }

    /// Appends the payload.
    pub fn write(&self, buffer: &mut Vec<u8>)
        ensures
            final(buffer)@ == old(buffer)@ + self@.payload(),
    {
        put_u16(buffer, self.ttl);
        buffer.push(self.replication_index);
        put_bytes(buffer, self.raw_key.as_slice());
        put_bytes(buffer, self.value.as_slice());
        assert(final(buffer)@ =~= old(buffer)@ + self@.payload());
    }
}

/// Answers a `StorageGet` with the value found under `raw_key`.
#[derive(Clone, Debug, PartialEq, Eq)]
pub struct StorageGetSuccess {
    pub raw_key: [u8; 32],
    pub value: Vec<u8>,
}

impl View for StorageGetSuccess {
    type V = MessageView;

    open spec fn view(&self) -> MessageView {
        MessageView::StorageGetSuccess { raw_key: self.raw_key@, value: self.value@ }
    }
}

impl StorageGetSuccess {
    /// Reads the payload: the key, then the value up to the end of the frame.
    pub fn parse(reader: &mut Reader) -> (r: Result<Self, DecodeError>)
        ensures
            outcome(r) == decode_payload(STORAGE_GET_SUCCESS, old(reader).rest()),
            r is Ok ==> final(reader).rest().len() == 0,
    {
        let raw_key = reader.read_array::<32>()?;
        let value = reader.read_rest();
        Ok(StorageGetSuccess { raw_key, value })
    }

    /// Appends the payload.
    pub fn write(&self, buffer: &mut Vec<u8>)
        ensures
            final(buffer)@ == old(buffer)@ + self@.payload(),
    {
        put_bytes(buffer, self.raw_key.as_slice());
        put_bytes(buffer, self.value.as_slice());
        assert(final(buffer)@ =~= old(buffer)@ + self@.payload());
    }
}

/// Answers a `StoragePut`: the value is stored under `raw_key`.
#[derive(Clone, Debug, PartialEq, Eq)]
pub struct StoragePutSuccess {
    pub raw_key: [u8; 32],
}

impl View for StoragePutSuccess {
    type V = MessageView;

    open spec fn view(&self) -> MessageView {
        MessageView::StoragePutSuccess { raw_key: self.raw_key@ }
    }
}

impl StoragePutSuccess {
    /// Reads the payload: the key.
    pub fn parse(reader: &mut Reader) -> (r: Result<Self, DecodeError>)
        ensures
            outcome(r) == decode_payload(STORAGE_PUT_SUCCESS, old(reader).rest()),
            r is Ok ==> final(reader).rest().len() == 0,
    {
        let ghost p = reader.rest();
        let raw_key = reader.read_array::<32>()?;
        reader.finish()?;
        proof {
            assert(raw_key@ =~= p);
        }
        Ok(StoragePutSuccess { raw_key })
    }

    /// Appends the payload.
    pub fn write(&self, buffer: &mut Vec<u8>)
        ensures
            final(buffer)@ == old(buffer)@ + self@.payload(),
    {
        put_bytes(buffer, self.raw_key.as_slice());
    }
}

/// Answers a storage request that failed for `raw_key`.
#[derive(Clone, Debug, PartialEq, Eq)]
pub struct StorageFailure {
    pub raw_key: [u8; 32],
}

impl View for StorageFailure {
    type V = MessageView;

    open spec fn view(&self) -> MessageView {
        MessageView::StorageFailure { raw_key: self.raw_key@ }
    }
}

impl StorageFailure {
    /// Reads the payload: the key.
    pub fn parse(reader: &mut Reader) -> (r: Result<Self, DecodeError>)
        ensures
            outcome(r) == decode_payload(STORAGE_FAILURE, old(reader).rest()),
            r is Ok ==> final(reader).rest().len() == 0,
    {
        let ghost p = reader.rest();
        let raw_key = reader.read_array::<32>()?;
        reader.finish()?;
        proof {
            assert(raw_key@ =~= p);
        }
        Ok(StorageFailure { raw_key })
    }

    /// Appends the payload.
    pub fn write(&self, buffer: &mut Vec<u8>)
        ensures
            final(buffer)@ == old(buffer)@ + self@.payload(),
    {
        put_bytes(buffer, self.raw_key.as_slice());
    }
}

/// Asks for the peer that is responsible for `identifier`.
#[derive(Clone, Debug, PartialEq, Eq)]
pub struct PeerFind {
    /// The target's position on the ring, big-endian.
    pub identifier: [u8; 32],
}

impl View for PeerFind {
    type V = MessageView;

    open spec fn view(&self) -> MessageView {
        MessageView::PeerFind { identifier: self.identifier@ }
    }
}

impl PeerFind {
    /// Reads the payload: the identifier.
    pub fn parse(reader: &mut Reader) -> (r: Result<Self, DecodeError>)
        ensures
            outcome(r) == decode_payload(PEER_FIND, old(reader).rest()),
            r is Ok ==> final(reader).rest().len() == 0,
    {
        let ghost p = reader.rest();
        let identifier = reader.read_array::<32>()?;
        reader.finish()?;
        proof {
            assert(identifier@ =~= p);
        }
        Ok(PeerFind { identifier })
    }

    /// Appends the payload.
    pub fn write(&self, buffer: &mut Vec<u8>)
        ensures
            final(buffer)@ == old(buffer)@ + self@.payload(),
    {
        put_bytes(buffer, self.identifier.as_slice());
    }
}

/// Answers a `PeerFind`: the peer at `address` is responsible for
/// `identifier`, or is the next one to ask.
#[derive(Clone, Debug, PartialEq, Eq)]
pub struct PeerFound {
    /// The position that was asked for, big-endian.
    pub identifier: [u8; 32],
    pub address: PeerAddress,
}

impl View for PeerFound {
    type V = MessageView;

    open spec fn view(&self) -> MessageView {
        MessageView::PeerFound { identifier: self.identifier@, address: self.address@ }
    }
}

impl PeerFound {
    /// Reads the payload: the identifier, then the address.
    pub fn parse(reader: &mut Reader) -> (r: Result<Self, DecodeError>)
        ensures
            outcome(r) == decode_payload(PEER_FOUND, old(reader).rest()),
            r is Ok ==> final(reader).rest().len() == 0,
    {
        let ghost p = reader.rest();
        let identifier = reader.read_array::<32>()?;
        let ghost q = reader.rest();
        let address = PeerAddress::parse(reader)?;
        reader.finish()?;
        proof {
            assert(q =~= p.skip(32));
            assert(identifier@ =~= p.take(32));
            assert(address@.ip =~= address_at(p, 32).ip);
        }
        Ok(PeerFound { identifier, address })
    }

    /// Appends the payload.
    pub fn write(&self, buffer: &mut Vec<u8>)
        ensures
            final(buffer)@ == old(buffer)@ + self@.payload(),
    {
        put_bytes(buffer, self.identifier.as_slice());
        self.address.write(buffer);
        assert(final(buffer)@ =~= old(buffer)@ + self@.payload());
    }
}

/// Asks a node for its predecessor on the ring.
#[derive(Clone, Copy, Debug, PartialEq, Eq)]
pub struct PredecessorGet {}

impl View for PredecessorGet {
    type V = MessageView;

    open spec fn view(&self) -> MessageView {
        MessageView::PredecessorGet
    }
}

impl PredecessorGet {
    /// Reads the payload: nothing.
    pub fn parse(reader: &mut Reader) -> (r: Result<Self, DecodeError>)
        ensures
            outcome(r) == decode_payload(PREDECESSOR_GET, old(reader).rest()),
            r is Ok ==> final(reader).rest().len() == 0,
    {
        reader.finish()?;
        Ok(PredecessorGet {  })
    }

    /// Appends the payload.
    pub fn write(&self, buffer: &mut Vec<u8>)
        ensures
            final(buffer)@ == old(buffer)@ + self@.payload(),
    {
        assert(final(buffer)@ =~= old(buffer)@ + self@.payload());
    }
}

/// Answers a `PredecessorGet`.
#[derive(Clone, Debug, PartialEq, Eq)]
pub struct PredecessorReply {
    /// The node's predecessor, or `None` where it knows of none.
    pub predecessor: Option<PeerAddress>,
}

impl View for PredecessorReply {
    type V = MessageView;

    open spec fn view(&self) -> MessageView {
        MessageView::PredecessorReply {
            predecessor: match self.predecessor {
                Some(a) => Some(a@),
                None => None,
            },
        }
    }
}

impl PredecessorReply {
    /// Reads the payload: nothing where there is no predecessor, else its
    /// address.
    pub fn parse(reader: &mut Reader) -> (r: Result<Self, DecodeError>)
        ensures
            outcome(r) == decode_payload(PREDECESSOR_REPLY, old(reader).rest()),
            r is Ok ==> final(reader).rest().len() == 0,
    {
        if reader.remaining() == 0 {
            return Ok(PredecessorReply { predecessor: None });
        }
        let address = PeerAddress::parse(reader)?;
        reader.finish()?;
        Ok(PredecessorReply { predecessor: Some(address) })
    }

    /// Appends the payload.
    pub fn write(&self, buffer: &mut Vec<u8>)
        ensures
            final(buffer)@ == old(buffer)@ + self@.payload(),
    {
        match &self.predecessor {
            Some(address) => {
                address.write(buffer);
            },
            None => {
                assert(final(buffer)@ =~= old(buffer)@ + self@.payload());
            },
        }
    }
}

/// Proposes the peer at `candidate` to a node as its new predecessor.
#[derive(Clone, Debug, PartialEq, Eq)]
pub struct PredecessorSet {
    pub candidate: PeerAddress,
}

impl View for PredecessorSet {
    type V = MessageView;

    open spec fn view(&self) -> MessageView {
        MessageView::PredecessorSet { candidate: self.candidate@ }
    }
}

impl PredecessorSet {
    /// Reads the payload: the candidate's address.
    pub fn parse(reader: &mut Reader) -> (r: Result<Self, DecodeError>)
        ensures
            outcome(r) == decode_payload(PREDECESSOR_SET, old(reader).rest()),
            r is Ok ==> final(reader).rest().len() == 0,
    {
        let candidate = PeerAddress::parse(reader)?;
        reader.finish()?;
        Ok(PredecessorSet { candidate })
    }

    /// Appends the payload.
    pub fn write(&self, buffer: &mut Vec<u8>)
        ensures
            final(buffer)@ == old(buffer)@ + self@.payload(),
    {
        self.candidate.write(buffer);
    }
}

} // verus!
