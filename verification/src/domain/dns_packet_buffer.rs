//! A fixed-capacity octet buffer with a cursor and bounds-checked reads.

use crate::error::DecodeError;
use vstd::prelude::*;

verus! {

/// Number of octets a buffer holds.
pub const CAPACITY: usize = 512;

/// A message's octets together with the position of the next sequential read.
///
/// The cursor may hold any value: `seek` does not check its target. Every read
/// checks the position it touches, so a cursor at or past the capacity makes
/// sequential reads fail.
pub struct DnsPacketBuffer {
    /// The octets.
    pub buf: [u8; 512],
    /// The cursor.
    pub pos: usize,
}

/// The 16-bit big-endian integer whose first octet stands at `pos`.
pub open spec fn u16_at(bytes: Seq<u8>, pos: int) -> u16 {
    (bytes[pos] * 0x100 + bytes[pos + 1]) as u16
}

/// The 32-bit big-endian integer whose first octet stands at `pos`.
pub open spec fn u32_at(bytes: Seq<u8>, pos: int) -> u32 {
    (bytes[pos] * 0x100_0000 + bytes[pos + 1] * 0x1_0000 + bytes[pos + 2] * 0x100 + bytes[pos
        + 3]) as u32
}

/// Where the cursor stands after `width` octets were asked for one by one from
/// `pos` on: behind them where they all lie in the buffer; else at the
/// capacity, where the reads ran out, or at `pos` where nothing could be read.
pub open spec fn read_cursor(pos: int, width: int) -> int {
    if pos + width <= CAPACITY {
        pos + width
    } else if pos < CAPACITY {
        CAPACITY as int
    } else {
        pos
    }
}

impl DnsPacketBuffer {
    /// The octets of the buffer.
    pub open spec fn bytes(&self) -> Seq<u8> {
        self.buf@
    }

    /// A buffer of zero octets with the cursor at the start.
    pub fn new() -> (b: DnsPacketBuffer)
        ensures
            b.pos == 0,
            b.bytes().len() == CAPACITY,
            forall|i: int| 0 <= i < CAPACITY ==> b.bytes()[i] == 0u8,
    {
        DnsPacketBuffer { buf: [0; 512], pos: 0 }
    }

    /// The cursor.
    pub fn pos(&self) -> (p: usize)
        ensures
            p == self.pos,
    {
        self.pos
    }

    /// Moves the cursor forward by `steps`, unless that reaches the capacity.
    pub fn step(&mut self, steps: usize) -> (r: Result<(), DecodeError>)
        ensures
            final(self).buf == old(self).buf,
            old(self).pos + steps < CAPACITY ==> r == Ok::<(), DecodeError>(()) && final(self).pos
                == old(self).pos + steps,
            old(self).pos + steps >= CAPACITY ==> r == Err::<(), DecodeError>(
                DecodeError::OutOfBounds,
            ) && final(self).pos == old(self).pos,
    {
        match self.pos.checked_add(steps) {
            Some(target) => {
                if target >= CAPACITY {
                    return Err(DecodeError::OutOfBounds);
                }
                self.pos = target;
                Ok(())
            },
            None => Err(DecodeError::OutOfBounds),
        }
    }

    /// Sets the cursor to `pos`, whatever `pos` is, unless the cursor already
    /// stands at or past the capacity.
    pub fn seek(&mut self, pos: usize) -> (r: Result<(), DecodeError>)
        ensures
            final(self).buf == old(self).buf,
            old(self).pos < CAPACITY ==> r == Ok::<(), DecodeError>(()) && final(self).pos == pos,
            old(self).pos >= CAPACITY ==> r == Err::<(), DecodeError>(DecodeError::OutOfBounds)
                && final(self).pos == old(self).pos,
    {
        if self.pos >= CAPACITY {
            return Err(DecodeError::OutOfBounds);
        }
        self.pos = pos;
        Ok(())
    }

    /// Reads the octet under the cursor and moves the cursor past it.
    pub fn read(&mut self) -> (r: Result<u8, DecodeError>)
        ensures
            final(self).buf == old(self).buf,
            old(self).pos < CAPACITY ==> r == Ok::<u8, DecodeError>(
                old(self).bytes()[old(self).pos as int],
            ) && final(self).pos == old(self).pos + 1,
            old(self).pos >= CAPACITY ==> r == Err::<u8, DecodeError>(DecodeError::OutOfBounds)
                && final(self).pos == old(self).pos,
    {
        if self.pos >= CAPACITY {
            return Err(DecodeError::OutOfBounds);
        }
        let res = self.buf[self.pos];
        self.pos += 1;
        Ok(res)
    }

    /// The octet at `pos`; the cursor stays where it is.
    pub fn get(&mut self, pos: usize) -> (r: Result<u8, DecodeError>)
        ensures
            *final(self) == *old(self),
            pos < CAPACITY ==> r == Ok::<u8, DecodeError>(old(self).bytes()[pos as int]),
            pos >= CAPACITY ==> r == Err::<u8, DecodeError>(DecodeError::OutOfBounds),
    {
        if pos >= CAPACITY {
            return Err(DecodeError::OutOfBounds);
        }
        Ok(self.buf[pos])
    }

    /// The `len` octets from `start` on, unless `start + len` reaches the capacity.
    pub fn get_range(&mut self, start: usize, len: usize) -> (r: Result<&[u8], DecodeError>)
        ensures
            *final(self) == *old(self),
            start + len < CAPACITY ==> r is Ok && r.unwrap()@ == old(self).bytes().subrange(
                start as int,
                start + len,
            ),
            start + len >= CAPACITY ==> r is Err && r.unwrap_err() == DecodeError::OutOfBounds,
    {
        match start.checked_add(len) {
            None => Err(DecodeError::OutOfBounds),
            Some(end) => {
                if end >= CAPACITY {
                    return Err(DecodeError::OutOfBounds);
                }
                Ok(vstd::slice::slice_subrange(self.buf.as_slice(), start, end))
            },
        }
    }

    /// Reads two octets as a big-endian integer.
    pub fn read_u16(&mut self) -> (r: Result<u16, DecodeError>)
        ensures
            final(self).buf == old(self).buf,
            final(self).pos == read_cursor(old(self).pos as int, 2),
            old(self).pos + 2 <= CAPACITY ==> r == Ok::<u16, DecodeError>(
                u16_at(old(self).bytes(), old(self).pos as int),
            ),
            old(self).pos + 2 > CAPACITY ==> r == Err::<u16, DecodeError>(
                DecodeError::OutOfBounds,
            ),
    {
        let hi = self.read()?;
        let lo = self.read()?;
        assert(((hi as u16) << 8) | (lo as u16) == (hi as u16) * 0x100 + (lo as u16))
            by (bit_vector);
        Ok(((hi as u16) << 8) | (lo as u16))
    }

    /// Reads four octets as a big-endian integer.
    pub fn read_u32(&mut self) -> (r: Result<u32, DecodeError>)
        ensures
            final(self).buf == old(self).buf,
            final(self).pos == read_cursor(old(self).pos as int, 4),
            old(self).pos + 4 <= CAPACITY ==> r == Ok::<u32, DecodeError>(
                u32_at(old(self).bytes(), old(self).pos as int),
            ),
            old(self).pos + 4 > CAPACITY ==> r == Err::<u32, DecodeError>(
                DecodeError::OutOfBounds,
            ),
    {
        let b0 = self.read()?;
        let b1 = self.read()?;
        let b2 = self.read()?;
        let b3 = self.read()?;
        assert(((b0 as u32) << 24) | ((b1 as u32) << 16) | ((b2 as u32) << 8) | ((b3 as u32) << 0)
            == (b0 as u32) * 0x100_0000 + (b1 as u32) * 0x1_0000 + (b2 as u32) * 0x100 + (
        b3 as u32)) by (bit_vector);
        Ok(((b0 as u32) << 24) | ((b1 as u32) << 16) | ((b2 as u32) << 8) | ((b3 as u32) << 0))
    }
}

} // verus!
