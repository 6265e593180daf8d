//! Bounds-checked reading of little-endian integers from buffered
//! ring-buffer bytes. A cursor tracks its position and the end of the
//! record it walks, and refuses every read that would cross that end,
//! since past it would lie acknowledged-bad memory.

use vstd::prelude::*;
use crate::error::DecodeError;

verus! {

/// The little-endian 16-bit value at byte offset `i` of `s`.
pub open spec fn le16_at(s: Seq<u8>, i: int) -> u16 {
    (s[i] as u16) | ((s[i + 1] as u16) << 8)
}

/// The little-endian 32-bit value at byte offset `i` of `s`.
pub open spec fn le32_at(s: Seq<u8>, i: int) -> u32 {
    (s[i] as u32) | ((s[i + 1] as u32) << 8) | ((s[i + 2] as u32) << 16) | ((s[i + 3] as u32)
        << 24)
}

/// The little-endian 64-bit value at byte offset `i` of `s`.
pub open spec fn le64_at(s: Seq<u8>, i: int) -> u64 {
    (s[i] as u64) | ((s[i + 1] as u64) << 8) | ((s[i + 2] as u64) << 16) | ((s[i + 3] as u64)
        << 24) | ((s[i + 4] as u64) << 32) | ((s[i + 5] as u64) << 40) | ((s[i + 6] as u64) << 48)
        | ((s[i + 7] as u64) << 56)
}

/// Reads the little-endian 64-bit value at byte offset `off`.
pub fn le64(data: &Vec<u8>, off: usize) -> (r: u64)
    requires
        off + 8 <= data@.len(),
    ensures
        r == le64_at(data@, off as int),
{
    let n = data.len();
    assert(off + 8 <= n);
    (data[off] as u64) | ((data[off + 1] as u64) << 8) | ((data[off + 2] as u64) << 16) | ((
    data[off + 3] as u64) << 24) | ((data[off + 4] as u64) << 32) | ((data[off + 5] as u64) << 40)
        | ((data[off + 6] as u64) << 48) | ((data[off + 7] as u64) << 56)
}

/// Reads the little-endian 16-bit value at byte offset `off`.
pub fn le16(data: &Vec<u8>, off: usize) -> (r: u16)
    requires
        off + 2 <= data@.len(),
    ensures
        r == le16_at(data@, off as int),
{
    let n = data.len();
    assert(off + 2 <= n);
    (data[off] as u16) | ((data[off + 1] as u16) << 8)
}

/// Reads the little-endian 32-bit value at byte offset `off`.
pub fn le32(data: &Vec<u8>, off: usize) -> (r: u32)
    requires
        off + 4 <= data@.len(),
    ensures
        r == le32_at(data@, off as int),
{
    let n = data.len();
    assert(off + 4 <= n);
    (data[off] as u32) | ((data[off + 1] as u32) << 8) | ((data[off + 2] as u32) << 16) | ((
    data[off + 3] as u32) << 24)
}

/// A position inside one record of the buffered bytes, together with the
/// record's declared end, which no read may cross.
#[derive(Clone, Copy, Debug, PartialEq, Eq, Structural)]
pub struct Cursor {
    pub pos: usize,
    pub end: usize,
}

impl Cursor {
    /// The cursor lies within the record and the record within the data.
    pub open spec fn wf(self, s: Seq<u8>) -> bool {
        self.pos <= self.end && self.end <= s.len()
    }

    /// A cursor over `[pos, end)` of the data.
    pub fn new(pos: usize, end: usize) -> (r: Cursor)
        requires
            pos <= end,
        ensures
            r.pos == pos,
            r.end == end,
    {
        Cursor { pos, end }
    }

    /// How many bytes of the record are left to read.
    pub fn remaining(&self) -> (r: usize)
        requires
            self.pos <= self.end,
        ensures
            r == self.end - self.pos,
    {
        self.end - self.pos
    }

    /// Reads the next little-endian 16-bit value, refusing to cross the
    /// record's declared end.
    pub fn read_u16(&mut self, data: &Vec<u8>) -> (r: Result<u16, DecodeError>)
        requires
            old(self).wf(data@),
        ensures
            final(self).wf(data@),
            final(self).end == old(self).end,
            match r {
                Ok(v) => old(self).pos + 2 <= old(self).end && final(self).pos == old(self).pos + 2
                    && v == le16_at(data@, old(self).pos as int),
                Err(e) => old(self).pos + 2 > old(self).end && *final(self) == *old(self) && e
                    == DecodeError::SizeMismatch,
            },
    {
        if self.end - self.pos < 2 {
            return Err(DecodeError::SizeMismatch);
        }
        let v = (data[self.pos] as u16) | ((data[self.pos + 1] as u16) << 8);
        self.pos = self.pos + 2;
        Ok(v)
    }

    /// Reads the next little-endian 32-bit value, refusing to cross the
    /// record's declared end.
    pub fn read_u32(&mut self, data: &Vec<u8>) -> (r: Result<u32, DecodeError>)
        requires
            old(self).wf(data@),
        ensures
            final(self).wf(data@),
            final(self).end == old(self).end,
            match r {
                Ok(v) => old(self).pos + 4 <= old(self).end && final(self).pos == old(self).pos + 4
                    && v == le32_at(data@, old(self).pos as int),
                Err(e) => old(self).pos + 4 > old(self).end && *final(self) == *old(self) && e
                    == DecodeError::SizeMismatch,
            },
    {
        if self.end - self.pos < 4 {
            return Err(DecodeError::SizeMismatch);
        }
        let v = (data[self.pos] as u32) | ((data[self.pos + 1] as u32) << 8) | ((data[self.pos + 2]
            as u32) << 16) | ((data[self.pos + 3] as u32) << 24);
        self.pos = self.pos + 4;
        Ok(v)
    }

    /// Reads the next little-endian 64-bit value, refusing to cross the
    /// record's declared end.
    pub fn read_u64(&mut self, data: &Vec<u8>) -> (r: Result<u64, DecodeError>)
        requires
            old(self).wf(data@),
        ensures
            final(self).wf(data@),
            final(self).end == old(self).end,
            match r {
                Ok(v) => old(self).pos + 8 <= old(self).end && final(self).pos == old(self).pos + 8
                    && v == le64_at(data@, old(self).pos as int),
                Err(e) => old(self).pos + 8 > old(self).end && *final(self) == *old(self) && e
                    == DecodeError::SizeMismatch,
            },
    {
        if self.end - self.pos < 8 {
            return Err(DecodeError::SizeMismatch);
        }
        let v = le64(data, self.pos);
        self.pos = self.pos + 8;
        Ok(v)
    }

    /// Reads the next byte, refusing to cross the record's declared end.
    pub fn read_u8(&mut self, data: &Vec<u8>) -> (r: Result<u8, DecodeError>)
        requires
            old(self).wf(data@),
        ensures
            final(self).wf(data@),
            final(self).end == old(self).end,
            match r {
                Ok(v) => old(self).pos + 1 <= old(self).end && final(self).pos == old(self).pos + 1
                    && v == data@[old(self).pos as int],
                Err(e) => old(self).pos + 1 > old(self).end && *final(self) == *old(self) && e
                    == DecodeError::SizeMismatch,
            },
    {
        if self.end - self.pos < 1 {
            return Err(DecodeError::SizeMismatch);
        }
        let v = data[self.pos];
        self.pos = self.pos + 1;
        Ok(v)
    }
}

} // verus!
