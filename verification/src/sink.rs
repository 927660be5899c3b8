//! Byte sinks: the destinations the encoder writes into.
//!
//! A sink accepts byte slices and either delivers the whole slice or
//! delivers a leading portion of it and reports failure. The encoder
//! propagates the first failure immediately and writes nothing further.

use vstd::prelude::*;
use crate::bytes::spec_u16_le;
use crate::bytes::spec_u32_le;
use crate::bytes::wrote_prefix;
use crate::bytes::le_bytes_of_u16;
use crate::bytes::le_bytes_of_u32;

verus! {

/// A sink refused some of the bytes handed to it. The failing write may
/// still have delivered a leading portion of its slice.
#[derive(Copy, Clone, Debug, PartialEq, Eq, Structural)]
pub struct WriteError;

/// A destination for bytes. `bytes` is the sequence delivered so far; a
/// successful write appends its whole slice to it, a failed write appends
/// some leading portion of the slice and nothing else.
pub trait Sink: Sized {
    /// All bytes the sink has accepted, in the order they were written.
    spec fn bytes(&self) -> Seq<u8>;

    /// Hands `data` to the sink. On success the sink holds all of `data`
    /// after what it already held; on failure it holds some leading portion
    /// of `data` there, and the rest of `data` was not delivered.
    fn write_bytes(&mut self, data: &[u8]) -> (r: Result<(), WriteError>)
        ensures
            r is Ok ==> final(self).bytes() == old(self).bytes() + data@,
            r is Err ==> wrote_prefix(old(self).bytes(), final(self).bytes(), data@),
    ;
}

/// Writes one byte to the sink.
pub fn write_u8_to<S: Sink>(w: &mut S, value: u8) -> (r: Result<(), WriteError>)
    ensures
        r is Ok ==> final(w).bytes() == old(w).bytes() + seq![value],
        r is Err ==> wrote_prefix(old(w).bytes(), final(w).bytes(), seq![value]),
{
    let mut data: Vec<u8> = Vec::new();
    data.push(value);
    proof {
        assert(data@ =~= seq![value]);
    }
    w.write_bytes(data.as_slice())
}

/// Writes a 16-bit integer to the sink as two little-endian bytes.
pub fn write_u16_le_to<S: Sink>(w: &mut S, value: u16) -> (r: Result<(), WriteError>)
    ensures
        r is Ok ==> final(w).bytes() == old(w).bytes() + spec_u16_le(value),
        r is Err ==> wrote_prefix(old(w).bytes(), final(w).bytes(), spec_u16_le(value)),
{
    let data = le_bytes_of_u16(value);
    w.write_bytes(data.as_slice())
}

/// Writes a 32-bit integer to the sink as four little-endian bytes.
pub fn write_u32_le_to<S: Sink>(w: &mut S, value: u32) -> (r: Result<(), WriteError>)
    ensures
        r is Ok ==> final(w).bytes() == old(w).bytes() + spec_u32_le(value),
        r is Err ==> wrote_prefix(old(w).bytes(), final(w).bytes(), spec_u32_le(value)),
{
    let data = le_bytes_of_u32(value);
    w.write_bytes(data.as_slice())
}

/// A sink that grows without bound and never fails.
pub struct VecSink {
    buffer: Vec<u8>,
}

impl VecSink {
    /// An empty sink.
    pub fn new() -> (r: VecSink)
        ensures
            r.bytes() == Seq::<u8>::empty(),
    {
        VecSink { buffer: Vec::new() }
    }

    /// The bytes accepted so far.
    pub fn into_vec(self) -> (r: Vec<u8>)
        ensures
            r@ == self.bytes(),
    {
        self.buffer
    }

    /// A borrowed view of the bytes accepted so far.
    pub fn as_bytes(&self) -> (r: &Vec<u8>)
        ensures
            r@ == self.bytes(),
    {
        &self.buffer
    }
}

impl Sink for VecSink {
    closed spec fn bytes(&self) -> Seq<u8> {
        self.buffer@
    }

    fn write_bytes(&mut self, data: &[u8]) -> (r: Result<(), WriteError>)
        ensures
            r is Ok,
    {
        let mut i: usize = 0;
        while i < data.len()
            invariant
                0 <= i <= data@.len(),
                self.buffer@ == old(self).buffer@ + data@.subrange(0, i as int),
            decreases data@.len() - i,
        {
            self.buffer.push(data[i]);
            proof {
                assert(old(self).buffer@ + data@.subrange(0, i as int) + seq![data@[i as int]]
                    =~= old(self).buffer@ + data@.subrange(0, i as int + 1));
            }
            i = i + 1;
        }
        proof {
            assert(data@.subrange(0, data@.len() as int) =~= data@);
        }
        Ok(())
    }
}

/// A sink with a fixed capacity: it accepts bytes until the capacity is
/// reached, then refuses the rest of the write. Useful as a model of a
/// destination that fails part-way through.
pub struct BoundedSink {
    buffer: Vec<u8>,
    capacity: usize,
}

impl BoundedSink {
    /// An empty sink that will accept at most `capacity` bytes.
    pub fn new(capacity: usize) -> (r: BoundedSink)
        ensures
            r.bytes() == Seq::<u8>::empty(),
            r.spec_capacity() == capacity,
    {
        BoundedSink { buffer: Vec::new(), capacity }
    }

    /// The number of bytes the sink was built to accept.
    pub closed spec fn spec_capacity(&self) -> usize {
        self.capacity
    }

    /// The number of bytes the sink was built to accept.
    pub fn capacity(&self) -> (r: usize)
        ensures
            r == self.spec_capacity(),
    {
        self.capacity
    }

    /// The bytes accepted so far.
    pub fn into_vec(self) -> (r: Vec<u8>)
        ensures
            r@ == self.bytes(),
    {
        self.buffer
    }

    /// A borrowed view of the bytes accepted so far.
    pub fn as_bytes(&self) -> (r: &Vec<u8>)
        ensures
            r@ == self.bytes(),
    {
        &self.buffer
    }
}

impl Sink for BoundedSink {
    closed spec fn bytes(&self) -> Seq<u8> {
        self.buffer@
    }

    fn write_bytes(&mut self, data: &[u8]) -> (r: Result<(), WriteError>)
    {
        let room: usize = if self.buffer.len() < self.capacity {
            self.capacity - self.buffer.len()
        } else {
            0
        };
        let take: usize = if data.len() < room {
            data.len()
        } else {
            room
        };
        let mut i: usize = 0;
        while i < take
            invariant
                0 <= i <= take <= data@.len(),
                self.buffer@ == old(self).buffer@ + data@.subrange(0, i as int),
            decreases take - i,
        {
            self.buffer.push(data[i]);
            proof {
                assert(old(self).buffer@ + data@.subrange(0, i as int) + seq![data@[i as int]]
                    =~= old(self).buffer@ + data@.subrange(0, i as int + 1));
            }
            i = i + 1;
        }
        if take == data.len() {
            proof {
                assert(data@.subrange(0, data@.len() as int) =~= data@);
            }
            Ok(())
        } else {
            Err(WriteError)
        }
    }
}

} // verus!
