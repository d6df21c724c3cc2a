//! Big-endian integers and the read position over a frame.

use byteorder::{ByteOrder, NetworkEndian};
use vstd::prelude::*;
use vstd::slice::slice_subrange;

verus! {

/// Why a buffer is not a message.
#[derive(Clone, Copy, Debug, PartialEq, Eq)]
pub enum DecodeError {
    /// The declared frame length is not the length of the buffer.
    SizeMismatch,
    /// The type code names no message.
    UnknownMessageType,
    /// The buffer ends before the last field does.
    PayloadUnderflow,
    /// Bytes remain after the last field.
    TrailingBytes,
}

/// Why a message has no frame.
#[derive(Clone, Copy, Debug, PartialEq, Eq)]
pub enum EncodeError {
    /// The frame would be longer than its 16-bit length field can say.
    FrameTooLarge,
}

/// The 16-bit integer whose big-endian bytes are `hi`, `lo`.
pub open spec fn be16(hi: u8, lo: u8) -> u16 {
    (hi as int * 256 + lo as int) as u16
}

/// The two big-endian bytes of a 16-bit integer.
pub open spec fn u16_bytes(v: u16) -> Seq<u8> {
    seq![(v / 256) as u8, (v % 256) as u8]
}

/// `byteorder::ByteOrder::read_u16` of `byteorder::NetworkEndian`: the integer
/// that the first two bytes denote, most significant byte first. The outside
/// function panics on fewer than two bytes.
#[verifier::external_body]
fn read_u16_be(bytes: &[u8]) -> (r: u16)
    requires
        bytes@.len() >= 2,
    ensures
        r == be16(bytes@[0], bytes@[1]),
{
    NetworkEndian::read_u16(bytes)
}

/// `byteorder::ByteOrder::write_u16` of `byteorder::NetworkEndian`: the two
/// bytes of `v`, most significant byte first.
#[verifier::external_body]
fn write_u16_be(v: u16) -> (r: [u8; 2])
    ensures
        r@ == u16_bytes(v),
{
    let mut out = [0u8; 2];
    NetworkEndian::write_u16(&mut out, v);
    out
}

/// Reading two bytes that were written from a 16-bit integer gives it back.
pub proof fn lemma_be16_of_u16_bytes(v: u16)
    ensures
        u16_bytes(v).len() == 2,
        be16(u16_bytes(v)[0], u16_bytes(v)[1]) == v,
{
}

/// A read position over the bytes of one frame.
pub struct Reader<'a> {
    bytes: &'a [u8],
    pos: usize,
}

impl<'a> Reader<'a> {
    #[verifier::type_invariant]
    spec fn in_bounds(&self) -> bool {
        self.pos <= self.bytes@.len()
    }

    /// The bytes not read yet.
    pub closed spec fn rest(&self) -> Seq<u8> {
        self.bytes@.skip(self.pos as int)
    }

    /// A reader at the start of `bytes`.
    pub fn new(bytes: &'a [u8]) -> (r: Self)
        ensures
            r.rest() == bytes@,
    {
        Reader { bytes, pos: 0 }
    }

    /// How many bytes are left.
    pub fn remaining(&self) -> (r: usize)
        ensures
            r == self.rest().len(),
    {
        proof {
            use_type_invariant(self);
        }
        self.bytes.len() - self.pos
    }

    /// Reads one byte.
    pub fn read_u8(&mut self) -> (r: Result<u8, DecodeError>)
        ensures
            old(self).rest().len() >= 1 ==> r == Ok::<u8, DecodeError>(old(self).rest()[0])
                && final(self).rest() == old(self).rest().skip(1),
            old(self).rest().len() < 1 ==> r == Err::<u8, DecodeError>(
                DecodeError::PayloadUnderflow,
            ) && final(self).rest() == old(self).rest(),
    {
        proof {
            use_type_invariant(&*self);
        }
        if self.bytes.len() - self.pos < 1 {
            return Err(DecodeError::PayloadUnderflow);
        }
        let b = self.bytes[self.pos];
        self.pos = self.pos + 1;
        assert(final(self).rest() =~= old(self).rest().skip(1));
        Ok(b)
    }

    /// Reads a big-endian 16-bit integer.
    pub fn read_u16(&mut self) -> (r: Result<u16, DecodeError>)
        ensures
            old(self).rest().len() >= 2 ==> r == Ok::<u16, DecodeError>(
                be16(old(self).rest()[0], old(self).rest()[1]),
            ) && final(self).rest() == old(self).rest().skip(2),
            old(self).rest().len() < 2 ==> r == Err::<u16, DecodeError>(
                DecodeError::PayloadUnderflow,
            ) && final(self).rest() == old(self).rest(),
    {
        proof {
            use_type_invariant(&*self);
        }
        if self.bytes.len() - self.pos < 2 {
            return Err(DecodeError::PayloadUnderflow);
        }
        let v = read_u16_be(slice_subrange(self.bytes, self.pos, self.pos + 2));
        self.pos = self.pos + 2;
        assert(final(self).rest() =~= old(self).rest().skip(2));
        Ok(v)
    }

    /// Reads `N` bytes.
    pub fn read_array<const N: usize>(&mut self) -> (r: Result<[u8; N], DecodeError>)
        ensures
            old(self).rest().len() >= N ==> final(self).rest() == old(self).rest().skip(N as int)
                && match r {
                Ok(a) => a@ == old(self).rest().take(N as int),
                Err(_) => false,
            },
            old(self).rest().len() < N ==> r == Err::<[u8; N], DecodeError>(
                DecodeError::PayloadUnderflow,
            ) && final(self).rest() == old(self).rest(),
    {
        proof {
            use_type_invariant(&*self);
        }
        if self.bytes.len() - self.pos < N {
            return Err(DecodeError::PayloadUnderflow);
        }
        let len: usize = self.bytes.len();
        let mut out = [0u8; N];
        let mut i: usize = 0;
        while i < N
            invariant
                i <= N,
                self.pos + N <= self.bytes@.len() == len,
                forall|j: int| 0 <= j < i ==> out@[j] == self.bytes@[self.pos + j],
            decreases N - i,
        {
            out[i] = self.bytes[self.pos + i];
            i = i + 1;
        }
        self.pos = self.pos + N;
        assert(out@ =~= old(self).rest().take(N as int));
        assert(final(self).rest() =~= old(self).rest().skip(N as int));
        Ok(out)
    }

    /// Reads whatever is left.
    pub fn read_rest(&mut self) -> (r: Vec<u8>)
        ensures
            r@ == old(self).rest(),
            final(self).rest() == Seq::<u8>::empty(),
    {
        proof {
            use_type_invariant(&*self);
        }
        let mut out: Vec<u8> = Vec::new();
        let mut i: usize = self.pos;
        while i < self.bytes.len()
            invariant
                self.pos <= i <= self.bytes@.len(),
                out@ == self.bytes@.subrange(self.pos as int, i as int),
            decreases self.bytes@.len() - i,
        {
            out.push(self.bytes[i]);
            assert(out@ =~= self.bytes@.subrange(self.pos as int, i + 1));
            i = i + 1;
        }
        assert(out@ =~= old(self).rest());
        self.pos = self.bytes.len();
        assert(final(self).rest() =~= Seq::<u8>::empty());
        out
    }

    /// Succeeds where every byte has been read.
    pub fn finish(&self) -> (r: Result<(), DecodeError>)
        ensures
            r == (if self.rest().len() == 0 {
                Ok::<(), DecodeError>(())
            } else {
                Err::<(), DecodeError>(DecodeError::TrailingBytes)
            }),
    {
        proof {
            use_type_invariant(self);
        }
        if self.pos == self.bytes.len() {
            Ok(())
        } else {
            Err(DecodeError::TrailingBytes)
        }
    }
}

/// Appends the two big-endian bytes of `v`.
pub fn put_u16(buffer: &mut Vec<u8>, v: u16)
    ensures
        final(buffer)@ == old(buffer)@ + u16_bytes(v),
{
    let b = write_u16_be(v);
    buffer.push(b[0]);
    buffer.push(b[1]);
    assert(final(buffer)@ =~= old(buffer)@ + u16_bytes(v));
}

/// Appends `bytes`.
pub fn put_bytes(buffer: &mut Vec<u8>, bytes: &[u8])
    ensures
        final(buffer)@ == old(buffer)@ + bytes@,
{
    let mut i: usize = 0;
    while i < bytes.len()
        invariant
            i <= bytes@.len(),
            buffer@ == old(buffer)@ + bytes@.take(i as int),
        decreases bytes@.len() - i,
    {
        buffer.push(bytes[i]);
        assert(buffer@ =~= old(buffer)@ + bytes@.take(i + 1));
        i = i + 1;
    }
    assert(bytes@.take(bytes@.len() as int) =~= bytes@);
}

} // verus!
