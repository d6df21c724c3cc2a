//! The messages that a client exchanges with its node.

use super::model::{
    decode_payload, outcome, MessageView, DHT_FAILURE, DHT_GET, DHT_PUT, DHT_SUCCESS,
};
use super::wire::{put_bytes, put_u16, DecodeError, Reader};
use vstd::prelude::*;

verus! {

/// Asks the node to store `value` under `key`.
#[derive(Clone, Debug, PartialEq, Eq)]
pub struct DhtPut {
    /// How many seconds the value should be kept.
    pub ttl: u16,
    /// How many copies the network should hold.
    pub replication: u8,
    pub key: [u8; 32],
    pub value: Vec<u8>,
}

/// Asks the node for the value under `key`.
#[derive(Clone, Debug, PartialEq, Eq)]
pub struct DhtGet {
    pub key: [u8; 32],
}

/// Answers a `DhtGet` with the value found under `key`.
#[derive(Clone, Debug, PartialEq, Eq)]
pub struct DhtSuccess {
    pub key: [u8; 32],
    pub value: Vec<u8>,
}

/// Answers a `DhtGet` for whose `key` no value was found.
#[derive(Clone, Debug, PartialEq, Eq)]
pub struct DhtFailure {
    pub key: [u8; 32],
}

impl View for DhtPut {
    type V = MessageView;

    open spec fn view(&self) -> MessageView {
        MessageView::DhtPut {
            ttl: self.ttl,
            replication: self.replication,
            key: self.key@,
            value: self.value@,
        }
    }
}

impl View for DhtGet {
    type V = MessageView;

    open spec fn view(&self) -> MessageView {
        MessageView::DhtGet { key: self.key@ }
    }
}

impl View for DhtSuccess {
    type V = MessageView;

    open spec fn view(&self) -> MessageView {
        MessageView::DhtSuccess { key: self.key@, value: self.value@ }
    }
}

impl View for DhtFailure {
    type V = MessageView;

    open spec fn view(&self) -> MessageView {
        MessageView::DhtFailure { key: self.key@ }
    }
}

impl DhtPut {
    /// Reads the payload: time to live, replication, key, then the value up
    /// to the end of the frame.
    pub fn parse(reader: &mut Reader) -> (r: Result<Self, DecodeError>)
        ensures
            outcome(r) == decode_payload(DHT_PUT, old(reader).rest()),
            r is Ok ==> final(reader).rest().len() == 0,
    {
        let ghost p = reader.rest();
        let ttl = reader.read_u16()?;
        let replication = reader.read_u8()?;
        let key = reader.read_array::<32>()?;
        let value = reader.read_rest();
        proof {
            assert(key@ =~= p.subrange(3, 35));
            assert(value@ =~= p.skip(35));
        }
        Ok(DhtPut { ttl, replication, key, value })
    }

    /// Appends the payload.
    pub fn write(&self, buffer: &mut Vec<u8>)
        ensures
            final(buffer)@ == old(buffer)@ + self@.payload(),
    {
        put_u16(buffer, self.ttl);
        buffer.push(self.replication);
        put_bytes(buffer, self.key.as_slice());
        put_bytes(buffer, self.value.as_slice());
        assert(final(buffer)@ =~= old(buffer)@ + self@.payload());
    }
}

impl DhtGet {
    /// Reads the payload: the key.
    pub fn parse(reader: &mut Reader) -> (r: Result<Self, DecodeError>)
        ensures
            outcome(r) == decode_payload(DHT_GET, old(reader).rest()),
            r is Ok ==> final(reader).rest().len() == 0,
    {
        let ghost p = reader.rest();
        let key = reader.read_array::<32>()?;
        reader.finish()?;
        proof {
            assert(key@ =~= p);
        }
        Ok(DhtGet { key })
    }

    /// Appends the payload.
    pub fn write(&self, buffer: &mut Vec<u8>)
        ensures
            final(buffer)@ == old(buffer)@ + self@.payload(),
    {
        put_bytes(buffer, self.key.as_slice());
    }
}

impl DhtSuccess {
    /// Reads the payload: the key, then the value up to the end of the frame.
    pub fn parse(reader: &mut Reader) -> (r: Result<Self, DecodeError>)
        ensures
            outcome(r) == decode_payload(DHT_SUCCESS, old(reader).rest()),
            r is Ok ==> final(reader).rest().len() == 0,
    {
        let key = reader.read_array::<32>()?;
        let value = reader.read_rest();
        Ok(DhtSuccess { key, value })
    }

    /// Appends the payload.
    pub fn write(&self, buffer: &mut Vec<u8>)
        ensures
            final(buffer)@ == old(buffer)@ + self@.payload(),
    {
        put_bytes(buffer, self.key.as_slice());
        put_bytes(buffer, self.value.as_slice());
        assert(final(buffer)@ =~= old(buffer)@ + self@.payload());
    }
}

impl DhtFailure {
    /// Reads the payload: the key.
    pub fn parse(reader: &mut Reader) -> (r: Result<Self, DecodeError>)
        ensures
            outcome(r) == decode_payload(DHT_FAILURE, old(reader).rest()),
            r is Ok ==> final(reader).rest().len() == 0,
    {
        let ghost p = reader.rest();
        let key = reader.read_array::<32>()?;
        reader.finish()?;
        proof {
            assert(key@ =~= p);
        }
        Ok(DhtFailure { key })
    }

    /// Appends the payload.
    pub fn write(&self, buffer: &mut Vec<u8>)
        ensures
            final(buffer)@ == old(buffer)@ + self@.payload(),
    {
        put_bytes(buffer, self.key.as_slice());
    }
}

} // verus!
