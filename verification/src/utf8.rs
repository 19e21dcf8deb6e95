//! A forward decoding iterator over a UTF-8 byte buffer.
//!
//! [`Utf8Decoder`] walks an immutable byte buffer and yields, one call
//! at a time, the pairs `(byte_offset, code_point)` of the scalars the
//! buffer encodes. The byte offset always names the first byte of the
//! scalar's encoding, so the offsets a single decoder yields are
//! strictly increasing. Bytes that no well-formed 1-to-4-byte UTF-8
//! encoding begins with — a missing or malformed continuation byte, an
//! impossible leading byte, an overlong encoding, a surrogate or a
//! value past the Unicode range — are reported as
//! [`DecodeError::MalformedEncoding`]; the decoder then stands one
//! byte further, so a caller may retry or give up as it pleases.
//!
//! The contracts are stated with the UTF-8 model of `vstd::utf8`:
//! `valid_first_scalar`, `decode_first_scalar` and
//! `length_of_first_scalar` on the not-yet-consumed bytes.

use vstd::prelude::*;
use vstd::utf8::{decode_first_scalar, length_of_first_scalar, valid_first_scalar};

verus! {

/// The bytes at the decoder's cursor are not a well-formed UTF-8
/// encoding of a single Unicode scalar.
#[derive(Clone, Copy, Debug, PartialEq, Eq, Structural)]
pub enum DecodeError {
    MalformedEncoding,
}

/// A single-pass decoder over a byte buffer. It owns the bytes it
/// reads and never changes them; to restart, build a new decoder over
/// the same bytes.
pub struct Utf8Decoder {
    bytes: Vec<u8>,
    cursor: usize,
}

impl Utf8Decoder {
    /// The whole underlying byte buffer.
    pub closed spec fn bytes_view(&self) -> Seq<u8> {
        self.bytes@
    }

    /// The cursor: the offset of the next byte to decode.
    pub closed spec fn offset(&self) -> nat {
        self.cursor as nat
    }

    /// The cursor never leaves the buffer.
    pub open spec fn wf(&self) -> bool {
        self.offset() <= self.bytes_view().len()
    }

    /// The bytes the decoder has not consumed yet.
    pub open spec fn remaining(&self) -> Seq<u8> {
        self.bytes_view().subrange(self.offset() as int, self.bytes_view().len() as int)
    }

    /// Builds a decoder over `bytes`, with the cursor at the start.
    pub fn new(bytes: Vec<u8>) -> (r: Self)
        ensures
            r.bytes_view() == bytes@,
            r.offset() == 0,
            r.wf(),
    {
        Utf8Decoder { bytes, cursor: 0 }
    }

    /// The total buffer length in bytes, independent of how many code
    /// points the buffer decodes to.
    pub fn byte_length(&self) -> (r: usize)
        ensures
            r == self.bytes_view().len(),
    {
        self.bytes.len()
    }

    /// Decodes the scalar whose encoding starts at the cursor and
    /// moves the cursor past it. Yields `Ok(None)` at the end of the
    /// buffer, `Ok(Some((byte_offset, code_point)))` on a well-formed
    /// encoding, and `Err(MalformedEncoding)` — stepping the cursor
    /// one byte forward — on anything else.
    pub fn next(&mut self) -> (r: Result<Option<(usize, u32)>, DecodeError>)
        requires
            old(self).wf(),
        ensures
            final(self).wf(),
            final(self).bytes_view() == old(self).bytes_view(),
            match r {
                Ok(decoded) => match decoded {
                    None => old(self).offset() == old(self).bytes_view().len() && final(self).offset()
                        == old(self).offset(),
                    Some(pair) => {
                        &&& valid_first_scalar(old(self).remaining())
                        &&& pair.0 == old(self).offset()
                        &&& pair.1 == decode_first_scalar(old(self).remaining())
                        &&& final(self).offset() == old(self).offset() + length_of_first_scalar(
                            old(self).remaining(),
                        )
                        &&& old(self).offset() < final(self).offset() <= old(
                            self,
                        ).bytes_view().len()
                    },
                },
                Err(e) => {
                    &&& e == DecodeError::MalformedEncoding
                    &&& old(self).offset() < old(self).bytes_view().len()
                    &&& !valid_first_scalar(old(self).remaining())
                    &&& final(self).offset() == old(self).offset() + 1
                },
            },
    {
        let n = self.bytes.len();
        let off = self.cursor;
        let ghost rest = self.remaining();
        if off >= n {
            return Ok(None);
        }
        assert(rest[0] == self.bytes@[off as int]);
        let avail = n - off;
        let b0 = self.bytes[off];
        if b0 < 0x80 {
            // One byte: 0xxxxxxx.
            assert(b0 & 0x7f == b0) by (bit_vector)
                requires
                    b0 < 0x80,
            ;
            self.cursor = off + 1;
            return Ok(Some((off, b0 as u32)));
        }
        if b0 < 0xc0 {
            // A stray continuation byte cannot lead an encoding.
            self.cursor = off + 1;
            return Err(DecodeError::MalformedEncoding);
        }
        if b0 < 0xe0 {
            // Two bytes: 110xxxxx 10xxxxxx.
            if avail < 2 {
                self.cursor = off + 1;
                return Err(DecodeError::MalformedEncoding);
            }
            assert(rest[1] == self.bytes@[off + 1]);
            let b1 = self.bytes[off + 1];
            if b1 < 0x80 || b1 > 0xbf {
                self.cursor = off + 1;
                return Err(DecodeError::MalformedEncoding);
            }
            let code_point: u32 = (((b0 & 0x1f) as u32) << 6) | ((b1 & 0x3f) as u32);
            if code_point < 0x80 {
                // Overlong: this value has a 1-byte encoding.
                self.cursor = off + 1;
                return Err(DecodeError::MalformedEncoding);
            }
            assert(code_point < 0xd800) by (bit_vector)
                requires
                    code_point == (((b0 & 0x1f) as u32) << 6) | ((b1 & 0x3f) as u32),
            ;
            self.cursor = off + 2;
            return Ok(Some((off, code_point)));
        }
        if b0 < 0xf0 {
            // Three bytes: 1110xxxx 10xxxxxx 10xxxxxx.
            if avail < 3 {
                self.cursor = off + 1;
                return Err(DecodeError::MalformedEncoding);
            }
            assert(rest[1] == self.bytes@[off + 1]);
            assert(rest[2] == self.bytes@[off + 2]);
            let b1 = self.bytes[off + 1];
            let b2 = self.bytes[off + 2];
            if b1 < 0x80 || b1 > 0xbf || b2 < 0x80 || b2 > 0xbf {
                self.cursor = off + 1;
                return Err(DecodeError::MalformedEncoding);
            }
            let code_point: u32 = (((b0 & 0x0f) as u32) << 12) | (((b1 & 0x3f) as u32) << 6) | ((
            b2 & 0x3f) as u32);
            if code_point < 0x800 {
                // Overlong: this value has a shorter encoding.
                self.cursor = off + 1;
                return Err(DecodeError::MalformedEncoding);
            }
            if 0xd800 <= code_point && code_point <= 0xdfff {
                // Surrogates are not Unicode scalars.
                self.cursor = off + 1;
                return Err(DecodeError::MalformedEncoding);
            }
            self.cursor = off + 3;
            return Ok(Some((off, code_point)));
        }
        if b0 < 0xf8 {
            // Four bytes: 11110xxx 10xxxxxx 10xxxxxx 10xxxxxx.
            if avail < 4 {
                self.cursor = off + 1;
                return Err(DecodeError::MalformedEncoding);
            }
            assert(rest[1] == self.bytes@[off + 1]);
            assert(rest[2] == self.bytes@[off + 2]);
            assert(rest[3] == self.bytes@[off + 3]);
            let b1 = self.bytes[off + 1];
            let b2 = self.bytes[off + 2];
            let b3 = self.bytes[off + 3];
            if b1 < 0x80 || b1 > 0xbf || b2 < 0x80 || b2 > 0xbf || b3 < 0x80 || b3 > 0xbf {
                self.cursor = off + 1;
                return Err(DecodeError::MalformedEncoding);
            }
            let code_point: u32 = (((b0 & 0x07) as u32) << 18) | (((b1 & 0x3f) as u32) << 12) | (((
            b2 & 0x3f) as u32) << 6) | ((b3 & 0x3f) as u32);
            if code_point < 0x10000 || code_point > 0x10ffff {
                // Overlong, or past the last Unicode scalar.
                self.cursor = off + 1;
                return Err(DecodeError::MalformedEncoding);
            }
            self.cursor = off + 4;
            return Ok(Some((off, code_point)));
        }
        // 0xf8..=0xff can lead no encoding at all.
        self.cursor = off + 1;
        Err(DecodeError::MalformedEncoding)
    }
}

} // verus!
