//! Sequential cursor over the input buffer: exact-length primitive reads,
//! null-terminated string reads and relative skips, each failing with
//! `Truncated` rather than consuming bytes past the end.

use crate::error::DecodeError;
use crate::model::{as_signed16, i16_at, parse_string_at, u16_at, u32_at};
use vstd::prelude::*;
use vstd::slice::slice_index_get;
use vstd::utf8::{decode_utf8, valid_utf8};

verus! {

/// Relies on `String::from_utf8`: it returns `Ok` exactly when the bytes are
/// valid UTF-8, and the returned string's characters are their decoding.
#[verifier::external_body]
fn string_from_utf8(bytes: Vec<u8>) -> (r: Option<String>)
    ensures
        r is Some <==> valid_utf8(bytes@),
        r matches Some(s) ==> s@ == decode_utf8(bytes@),
{
    String::from_utf8(bytes).ok()
}

/// The bit pattern of `v` as a two's-complement signed integer.
fn to_signed16(v: u16) -> (r: i16)
    ensures
        r == as_signed16(v),
{
    if v < 0x8000 {
        v as i16
    } else {
        ((v as i32) - 0x10000) as i16
    }
}

/// A position within a byte buffer, advanced by each read.
pub(crate) struct Reader<'a> {
    pub(crate) buf: &'a [u8],
    pub(crate) pos: usize,
}

impl<'a> Reader<'a> {
    /// The whole buffer being read.
    pub(crate) open spec fn bytes(&self) -> Seq<u8> {
        self.buf@
    }

    /// The current absolute position.
    pub(crate) open spec fn position(&self) -> int {
        self.pos as int
    }

    /// The position never lies past the end of the buffer.
    pub(crate) open spec fn wf(&self) -> bool {
        self.pos <= self.buf@.len()
    }

    pub(crate) fn new(buf: &'a [u8]) -> (r: Self)
        ensures
            r.wf(),
            r.bytes() == buf@,
            r.position() == 0,
    {
        Reader { buf, pos: 0 }
    }

    /// Whether any byte is left before the end of the buffer.
    pub(crate) fn has_more(&self) -> (b: bool)
        requires
            self.wf(),
        ensures
            b == (self.position() < self.bytes().len()),
    {
        self.pos < self.buf.len()
    }

    /// Advance by `n` bytes without reading them.
    pub(crate) fn skip(&mut self, n: usize) -> (r: Result<(), DecodeError>)
        requires
            old(self).wf(),
        ensures
            final(self).wf(),
            final(self).bytes() == old(self).bytes(),
            old(self).position() + n <= old(self).bytes().len() ==> r is Ok
                && final(self).position() == old(self).position() + n,
            old(self).position() + n > old(self).bytes().len() ==> r == Err::<(), DecodeError>(
                DecodeError::Truncated,
            ) && *final(self) == *old(self),
    {
        if n <= self.buf.len() - self.pos {
            self.pos = self.pos + n;
            Ok(())
        } else {
            Err(DecodeError::Truncated)
        }
    }

    /// Read one byte.
    pub(crate) fn read_u8(&mut self) -> (r: Result<u8, DecodeError>)
        requires
            old(self).wf(),
        ensures
            final(self).wf(),
            final(self).bytes() == old(self).bytes(),
            old(self).position() < old(self).bytes().len() ==> (r matches Ok(b)
                && b == old(self).bytes()[old(self).position()]
                && final(self).position() == old(self).position() + 1),
            old(self).position() >= old(self).bytes().len() ==> r == Err::<u8, DecodeError>(
                DecodeError::Truncated,
            ) && *final(self) == *old(self),
    {
        if self.pos < self.buf.len() {
            let b = *slice_index_get(self.buf, self.pos);
            self.pos = self.pos + 1;
            Ok(b)
        } else {
            Err(DecodeError::Truncated)
        }
    }

    /// Read an unsigned 16-bit little-endian integer.
    pub(crate) fn read_u16(&mut self) -> (r: Result<u16, DecodeError>)
        requires
            old(self).wf(),
        ensures
            final(self).wf(),
            final(self).bytes() == old(self).bytes(),
            old(self).position() + 2 <= old(self).bytes().len() ==> (r matches Ok(v)
                && v == u16_at(old(self).bytes(), old(self).position())
                && final(self).position() == old(self).position() + 2),
            old(self).position() + 2 > old(self).bytes().len() ==> r == Err::<u16, DecodeError>(
                DecodeError::Truncated,
            ) && *final(self) == *old(self),
    {
        if self.buf.len() - self.pos >= 2 {
            let b0 = *slice_index_get(self.buf, self.pos);
            let b1 = *slice_index_get(self.buf, self.pos + 1);
            self.pos = self.pos + 2;
            Ok(b0 as u16 + (b1 as u16) * 0x100)
        } else {
            Err(DecodeError::Truncated)
        }
    }

    /// Read a signed 16-bit little-endian integer.
    pub(crate) fn read_i16(&mut self) -> (r: Result<i16, DecodeError>)
        requires
            old(self).wf(),
        ensures
            final(self).wf(),
            final(self).bytes() == old(self).bytes(),
            old(self).position() + 2 <= old(self).bytes().len() ==> (r matches Ok(v)
                && v == i16_at(old(self).bytes(), old(self).position())
                && final(self).position() == old(self).position() + 2),
            old(self).position() + 2 > old(self).bytes().len() ==> r == Err::<i16, DecodeError>(
                DecodeError::Truncated,
            ) && *final(self) == *old(self),
    {
        match self.read_u16() {
            Ok(v) => Ok(to_signed16(v)),
            Err(e) => Err(e),
        }
    }

    /// Read an unsigned 32-bit little-endian integer.
    pub(crate) fn read_u32(&mut self) -> (r: Result<u32, DecodeError>)
        requires
            old(self).wf(),
        ensures
            final(self).wf(),
            final(self).bytes() == old(self).bytes(),
            old(self).position() + 4 <= old(self).bytes().len() ==> (r matches Ok(v)
                && v == u32_at(old(self).bytes(), old(self).position())
                && final(self).position() == old(self).position() + 4),
            old(self).position() + 4 > old(self).bytes().len() ==> r == Err::<u32, DecodeError>(
                DecodeError::Truncated,
            ) && *final(self) == *old(self),
    {
        if self.buf.len() - self.pos >= 4 {
            let b0 = *slice_index_get(self.buf, self.pos);
            let b1 = *slice_index_get(self.buf, self.pos + 1);
            let b2 = *slice_index_get(self.buf, self.pos + 2);
            let b3 = *slice_index_get(self.buf, self.pos + 3);
            self.pos = self.pos + 4;
            Ok(b0 as u32 + (b1 as u32) * 0x100 + (b2 as u32) * 0x10000 + (b3 as u32) * 0x1000000)
        } else {
            Err(DecodeError::Truncated)
        }
    }

    /// Read bytes up to and including the next zero byte, and decode the
    /// bytes before it as UTF-8 text.
    pub(crate) fn read_string(&mut self) -> (r: Result<String, DecodeError>)
        requires
            old(self).wf(),
        ensures
            final(self).wf(),
            final(self).bytes() == old(self).bytes(),
            match parse_string_at(old(self).bytes(), old(self).position()) {
                Ok((cs, j)) => r matches Ok(out) && out@ == cs && final(self).position() == j,
                Err(e) => r == Err::<String, DecodeError>(e),
            },
    {
        let mut collected: Vec<u8> = Vec::new();
        loop
            invariant
                self.wf(),
                self.bytes() == old(self).bytes(),
                old(self).position() <= self.position() <= self.bytes().len(),
                collected@ == self.bytes().subrange(old(self).position(), self.position()),
                crate::model::find_nul(self.bytes(), old(self).position()) == crate::model::find_nul(
                    self.bytes(),
                    self.position(),
                ),
            decreases self.bytes().len() - self.position(),
        {
            if self.pos >= self.buf.len() {
                return Err(DecodeError::Truncated);
            }
            let b = *slice_index_get(self.buf, self.pos);
            self.pos = self.pos + 1;
            if b == 0 {
                match string_from_utf8(collected) {
                    Some(out) => {
                        return Ok(out);
                    },
                    None => {
                        return Err(DecodeError::InvalidEncoding);
                    },
                }
            } else {
                collected.push(b);
            }
        }
    }
}

} // verus!
