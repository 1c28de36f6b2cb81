//! The byte buffer owned by an editing session: a contiguous sequence of
//! bytes with bounds-checked single-byte access and little-endian 32-bit
//! reads composed from four byte reads.

use vstd::prelude::*;

verus! {

/// The error kinds of the editor core. An out-of-range buffer access is
/// rejected, never truncated; I/O failures are reported by the collaborator
/// that performs the read or write; an empty search needle is treated as
/// "no match" by the search functions and so never becomes a hard failure.
#[derive(Clone, Copy, Debug, PartialEq, Eq, Structural)]
pub enum HexError {
    OutOfRange,
    IoError,
    EmptyNeedle,
}

/// An owned, mutable byte sequence. Its length is fixed by the data it is
/// created from; only `set_byte` mutates it, one byte at a time.
pub struct DataBuffer {
    pub data: Vec<u8>,
}

impl View for DataBuffer {
    type V = Seq<u8>;

    open spec fn view(&self) -> Seq<u8> {
        self.data@
    }
}

/// The unsigned value of the four bytes at `offset`, least-significant
/// byte first.
pub open spec fn le_u32_at(bytes: Seq<u8>, offset: int) -> int {
    bytes[offset] + 0x100 * bytes[offset + 1] + 0x1_0000 * bytes[offset + 2] + 0x100_0000 * bytes[
        offset + 3
    ]
}

/// The two's-complement signed reading of the same four bytes.
pub open spec fn le_i32_at(bytes: Seq<u8>, offset: int) -> int {
    if le_u32_at(bytes, offset) < 0x8000_0000 {
        le_u32_at(bytes, offset)
    } else {
        le_u32_at(bytes, offset) - 0x1_0000_0000
    }
}

/// Writing a byte and reading the same offset gives the byte back: after
/// `set_byte(offset, value)` succeeds, `get_byte(offset)` returns `value`
/// (both contracts go through `update` and indexing, related here).
pub proof fn lemma_set_then_get(bytes: Seq<u8>, offset: int, value: u8)
    requires
        0 <= offset < bytes.len(),
    ensures
        bytes.update(offset, value)[offset] == value,
{
}

impl DataBuffer {
    pub fn len(&self) -> (n: usize)
        ensures
            n == self@.len(),
    {
        self.data.len()
    }

    /// Replaces the byte at `offset`; rejects an out-of-range offset.
    pub fn set_byte(&mut self, offset: usize, value: u8) -> (r: Result<(), HexError>)
        ensures
            offset < old(self)@.len() ==> r == Ok::<(), HexError>(()) && final(self)@ == old(self)@.update(offset as int, value),
            offset >= old(self)@.len() ==> r == Err::<(), HexError>(HexError::OutOfRange) && final(self)@ == old(self)@,
    {
        if offset < self.data.len() {
            self.data.set(offset, value);
            Ok(())
        } else {
            Err(HexError::OutOfRange)
        }
    }

    /// The byte at `offset`; rejects an out-of-range offset.
    pub fn get_byte(&self, offset: usize) -> (r: Result<u8, HexError>)
        ensures
            offset < self@.len() ==> r == Ok::<u8, HexError>(self@[offset as int]),
            offset >= self@.len() ==> r == Err::<u8, HexError>(HexError::OutOfRange),
    {
        if offset < self.data.len() {
            Ok(self.data[offset])
        } else {
            Err(HexError::OutOfRange)
        }
    }

    /// The unsigned 32-bit value read little-endian at `offset`; rejects the
    /// read if any of the four bytes is out of range.
    pub fn get_u32(&self, offset: usize) -> (r: Result<u32, HexError>)
        ensures
            offset + 4 <= self@.len() ==> r == Ok::<u32, HexError>(
                le_u32_at(self@, offset as int) as u32,
            ),
            offset + 4 > self@.len() ==> r == Err::<u32, HexError>(HexError::OutOfRange),
    {
        if self.data.len() >= 4 && offset <= self.data.len() - 4 {
            let b0 = self.data[offset] as u32;
            let b1 = self.data[offset + 1] as u32;
            let b2 = self.data[offset + 2] as u32;
            let b3 = self.data[offset + 3] as u32;
            Ok(b0 + 0x100 * b1 + 0x1_0000 * b2 + 0x100_0000 * b3)
        } else {
            Err(HexError::OutOfRange)
        }
    }

    /// The signed 32-bit value read little-endian at `offset`; rejects the
    /// read if any of the four bytes is out of range.
    pub fn get_i32(&self, offset: usize) -> (r: Result<i32, HexError>)
        ensures
            offset + 4 <= self@.len() ==> r == Ok::<i32, HexError>(
                le_i32_at(self@, offset as int) as i32,
            ),
            offset + 4 > self@.len() ==> r == Err::<i32, HexError>(HexError::OutOfRange),
    {
        match self.get_u32(offset) {
            Ok(u) => {
                if u <= 0x7FFF_FFFF {
                    Ok(u as i32)
                } else {
                    Ok(-((0xFFFF_FFFFu32 - u) as i32) - 1)
                }
            },
            Err(e) => Err(e),
        }
    }
}

} // verus!
