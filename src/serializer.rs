//! Append-only writer of wire values.
use vstd::prelude::*;
use crate::wire::{be16, be32};

verus! {

/// Writer for serializing various data types into a byte buffer.
pub struct MessageSerializer {
    /// Buffer bytes are serialized into.
    buffer: Vec<u8>,
}

impl View for MessageSerializer {
    type V = Seq<u8>;

    /// The bytes written so far.
    closed spec fn view(&self) -> Seq<u8> {
        self.buffer@
    }
}

impl Default for MessageSerializer {
    /// A serializer with nothing written yet.
    fn default() -> (r: MessageSerializer)
        ensures
            r@ == Seq::<u8>::empty(),
    {
        MessageSerializer { buffer: Vec::new() }
    }
}

impl MessageSerializer {
    /// Writes a byte to the buffer.
    pub fn write_u8(&mut self, value: u8)
        ensures
            final(self)@ == old(self)@.push(value),
    {
        self.buffer.push(value);
    }

    /// Writes a collection of bytes to the buffer.
    pub fn write_bytes(&mut self, value: &[u8])
        ensures
            final(self)@ == old(self)@ + value@,
    {
        let mut i: usize = 0;
        while i < value.len()
            invariant
                i <= value@.len(),
                self@ == old(self)@ + value@.subrange(0, i as int),
            decreases value@.len() - i,
        {
            self.buffer.push(value[i]);
            i = i + 1;
            assert(value@.subrange(0, i as int) == value@.subrange(0, i - 1 as int).push(value@[i - 1]));
        }
        assert(value@.subrange(0, i as int) == value@);
    }

    /// Writes a 16-bit unsigned integer to the buffer, big-endian.
    pub fn write_u16(&mut self, value: u16)
        ensures
            final(self)@ == old(self)@ + be16(value),
    {
        self.buffer.push((value / 256) as u8);
        self.buffer.push((value % 256) as u8);
        assert(self@ == old(self)@ + be16(value));
    }

    /// Writes a 32-bit unsigned integer to the buffer, big-endian.
    pub fn write_u32(&mut self, value: u32)
        ensures
            final(self)@ == old(self)@ + be32(value),
    {
        self.buffer.push((value / 0x100_0000) as u8);
        self.buffer.push(((value / 0x1_0000) % 256) as u8);
        self.buffer.push(((value / 256) % 256) as u8);
        self.buffer.push((value % 256) as u8);
        assert(self@ == old(self)@ + be32(value));
    }

    /// Gets a slice of the underlying buffer.
    pub fn buffer(&self) -> (r: &[u8])
        ensures
            r@ == self@,
    {
        self.buffer.as_slice()
    }

    /// Exchanges the serializer for the underlying buffer.
    pub fn into_inner(self) -> (r: Vec<u8>)
        ensures
            r@ == self@,
    {
        self.buffer
    }
}

} // verus!
