//! Bounds-checked reader of wire values over a borrowed buffer.
use vstd::prelude::*;
use crate::error::MessageError;
use crate::wire::{from_be16, from_be32};
use vstd::slice::slice_subrange;

verus! {

/// Reader for deserializing various data types from a byte buffer.
pub struct MessageDeserializer<'a> {
    /// Buffer of bytes to read from.
    buffer: &'a [u8],
    /// Current position within the buffer that has been read up to.
    cursor: usize,
}

impl<'a> MessageDeserializer<'a> {
    /// The cursor never moves past the end of the buffer.
    #[verifier::type_invariant]
    closed spec fn cursor_in_bounds(&self) -> bool {
        self.cursor <= self.buffer@.len()
    }

    /// The whole underlying buffer.
    pub closed spec fn data(&self) -> Seq<u8> {
        self.buffer@
    }

    /// The position of the cursor within the buffer.
    pub closed spec fn pos(&self) -> nat {
        self.cursor as nat
    }

    /// The bytes that have not been read yet.
    pub open spec fn remaining(&self) -> Seq<u8> {
        self.data().subrange(self.pos() as int, self.data().len() as int)
    }

    /// After a successful read of `n` bytes: same buffer, cursor `n` further on.
    pub open spec fn advanced(&self, before: &Self, n: nat) -> bool {
        &&& self.data() == before.data()
        &&& self.pos() == before.pos() + n
        &&& self.pos() <= self.data().len()
    }

    /// What is left after a read of `n` bytes is what was left before, less
    /// its first `n` bytes.
    pub proof fn lemma_advanced_remaining(&self, before: &Self, n: nat)
        requires
            self.advanced(before, n),
        ensures
            self.remaining() == before.remaining().subrange(n as int, before.remaining().len() as int),
            before.remaining().len() == self.remaining().len() + n,
            forall|k: int| 0 <= k < n ==> #[trigger] before.remaining()[k] == before.data()[before.pos() + k],
    {
        assert(self.remaining() =~= before.remaining().subrange(n as int, before.remaining().len() as int));
    }

    /// Creates a new deserializer from the buffer.
    pub fn new(buffer: &'a [u8]) -> (r: MessageDeserializer<'a>)
        ensures
            r.data() == buffer@,
            r.pos() == 0,
            r.remaining() == buffer@,
    {
        let r = MessageDeserializer { buffer, cursor: 0 };
        assert(r.remaining() == buffer@);
        r
    }

    /// Gets the total capacity of the underlying buffer.
    pub fn capacity(&self) -> (r: usize)
        ensures
            r == self.data().len(),
    {
        self.buffer.len()
    }

    /// Gets the length of the remaining unread buffer portion.
    pub fn len(&self) -> (r: usize)
        ensures
            r == self.remaining().len(),
            self.pos() + r == self.data().len(),
    {
        proof {
            use_type_invariant(self);
        }
        self.capacity() - self.cursor
    }

    /// Checks if the deserializer is empty.
    pub fn is_empty(&self) -> (r: bool)
        ensures
            r == (self.remaining().len() == 0),
    {
        self.len() < 1
    }

    /// Reads a byte from the buffer.
    pub fn read_u8(&mut self) -> (r: Result<u8, MessageError>)
        ensures
            old(self).remaining().len() >= 1 <==> r is Ok,
            r is Ok ==> r->Ok_0 == old(self).remaining()[0]
                && final(self).advanced(old(self), 1),
            r is Err ==> r->Err_0 == MessageError::Incomplete(1) && *final(self) == *old(self),
    {
        proof {
            use_type_invariant(&*self);
        }
        if self.is_empty() {
            return Err(MessageError::Incomplete(1));
        }
        let value = self.buffer[self.cursor];
        self.cursor = self.cursor + 1;
        Ok(value)
    }
    /// Reads a fixed, compile-time length run of bytes from the buffer.
    pub fn read_fixed<const LENGTH: usize>(&mut self) -> (r: Result<[u8; LENGTH], MessageError>)
        ensures
            old(self).remaining().len() >= LENGTH <==> r is Ok,
            r is Ok ==> r->Ok_0@ == old(self).remaining().subrange(0, LENGTH as int)
                && final(self).advanced(old(self), LENGTH as nat),
            r is Err ==> r->Err_0 == MessageError::Incomplete(LENGTH) && *final(self) == *old(self),
    {
        proof {
            use_type_invariant(&*self);
        }
        if self.len() < LENGTH {
            return Err(MessageError::Incomplete(LENGTH));
        }
        let capacity = self.buffer.len();
        let mut buffer = [0u8; LENGTH];
        let start = self.cursor;
        let mut i: usize = 0;
        while i < LENGTH
            invariant
                i <= LENGTH,
                start == self.cursor,
                start + LENGTH <= self.buffer@.len() == capacity,
                buffer@.len() == LENGTH,
                forall|k: int| 0 <= k < i ==> buffer@[k] == self.buffer@[start + k],
            decreases LENGTH - i,
        {
            buffer[i] = self.buffer[start + i];
            i = i + 1;
        }
        self.cursor = start + LENGTH;
        assert(buffer@ =~= old(self).remaining().subrange(0, LENGTH as int));
        Ok(buffer)
    }

    /// Reads a big-endian 16-bit unsigned integer from the buffer.
    pub fn read_u16(&mut self) -> (r: Result<u16, MessageError>)
        ensures
            old(self).remaining().len() >= 2 <==> r is Ok,
            r is Ok ==> r->Ok_0 == from_be16(old(self).remaining()[0], old(self).remaining()[1])
                && final(self).advanced(old(self), 2),
            r is Err ==> r->Err_0 == MessageError::Incomplete(2) && *final(self) == *old(self),
    {
        let value: [u8; 2] = self.read_fixed()?;
        Ok((value[0] as u16) * 256 + (value[1] as u16))
    }

    /// Reads a big-endian 32-bit unsigned integer from the buffer.
    pub fn read_u32(&mut self) -> (r: Result<u32, MessageError>)
        ensures
            old(self).remaining().len() >= 4 <==> r is Ok,
            r is Ok ==> r->Ok_0 == from_be32(
                old(self).remaining()[0],
                old(self).remaining()[1],
                old(self).remaining()[2],
                old(self).remaining()[3],
            ) && final(self).advanced(old(self), 4),
            r is Err ==> r->Err_0 == MessageError::Incomplete(4) && *final(self) == *old(self),
    {
        let value: [u8; 4] = self.read_fixed()?;
        Ok((value[0] as u32) * 0x100_0000 + (value[1] as u32) * 0x1_0000 + (value[2] as u32) * 256
            + (value[3] as u32))
    }

    /// Reads a run of bytes whose length is known only at run time; the
    /// result borrows from the underlying buffer.
    pub fn read_bytes(&mut self, length: usize) -> (r: Result<&'a [u8], MessageError>)
        ensures
            old(self).remaining().len() >= length <==> r is Ok,
            r is Ok ==> r->Ok_0@ == old(self).remaining().subrange(0, length as int)
                && final(self).advanced(old(self), length as nat),
            r is Err ==> r->Err_0 == MessageError::Incomplete(old(self).remaining().len() as usize)
                && *final(self) == *old(self),
    {
        proof {
            use_type_invariant(&*self);
        }
        if self.len() < length {
            return Err(MessageError::Incomplete(self.len()));
        }
        let capacity = self.buffer.len();
        let value = slice_subrange(self.buffer, self.cursor, self.cursor + length);
        self.cursor = self.cursor + length;
        assert(value@ =~= old(self).remaining().subrange(0, length as int));
        Ok(value)
    }
}

} // verus!
