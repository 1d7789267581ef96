//! The mathematical model of the binary format: spec-level functions that say,
//! for a byte sequence, exactly what the decoder returns — the decoded
//! document on success, and which error on which malformed inputs. The
//! executable decoder's contract equates its result with [`spec_decode`].

use crate::error::DecodeError;
use crate::font::{Char, Common, FontModel, InfoModel, Kerning};
use vstd::prelude::*;
use vstd::utf8::{decode_utf8, valid_utf8};

verus! {

/// Whether `s` opens with the four signature bytes: "BMF" and the format
/// version byte 3.
pub open spec fn signature_ok(s: Seq<u8>) -> bool {
    &&& s.len() >= 4
    &&& s[0] == 0x42u8
    &&& s[1] == 0x4du8
    &&& s[2] == 0x46u8
    &&& s[3] == 0x03u8
}

/// The unsigned 16-bit little-endian integer at offset `i`.
pub open spec fn u16_at(s: Seq<u8>, i: int) -> u16
    recommends
        0 <= i,
        i + 2 <= s.len(),
{
    (s[i] + s[i + 1] * 0x100) as u16
}

/// The unsigned 32-bit little-endian integer at offset `i`.
pub open spec fn u32_at(s: Seq<u8>, i: int) -> u32
    recommends
        0 <= i,
        i + 4 <= s.len(),
{
    (s[i] + s[i + 1] * 0x100 + s[i + 2] * 0x10000 + s[i + 3] * 0x1000000) as u32
}

/// The bit pattern of `v` reinterpreted as a two's-complement signed integer.
pub open spec fn as_signed16(v: u16) -> i16 {
    if v < 0x8000 {
        v as i16
    } else {
        (v - 0x10000) as i16
    }
}

/// The signed 16-bit little-endian integer at offset `i`.
pub open spec fn i16_at(s: Seq<u8>, i: int) -> i16
    recommends
        0 <= i,
        i + 2 <= s.len(),
{
    as_signed16(u16_at(s, i))
}

/// The offset of the first zero byte at or after `i`, if any.
pub open spec fn find_nul(s: Seq<u8>, i: int) -> Option<int>
    decreases s.len() - i,
{
    if i < 0 || i >= s.len() {
        None
    } else if s[i] == 0 {
        Some(i)
    } else {
        find_nul(s, i + 1)
    }
}

/// One null-terminated string starting at offset `i`: on success, the decoded
/// characters before the terminator and the offset just past the terminator.
/// `Truncated` when no terminator exists, `InvalidEncoding` when the bytes
/// before it are not valid UTF-8.
pub open spec fn parse_string_at(s: Seq<u8>, i: int) -> Result<(Seq<char>, int), DecodeError> {
    match find_nul(s, i) {
        None => Err(DecodeError::Truncated),
        Some(n) => {
            let body = s.subrange(i, n);
            if valid_utf8(body) {
                Ok((decode_utf8(body), n + 1))
            } else {
                Err(DecodeError::InvalidEncoding)
            }
        },
    }
}

/// The Info block at offset `i`: a 5-byte tag-and-length prefix that is
/// skipped unvalidated, 14 bytes of fixed fields, then the font name.
pub open spec fn parse_info_at(s: Seq<u8>, i: int) -> Result<(InfoModel, int), DecodeError>
    recommends
        0 <= i,
{
    if i + 19 > s.len() {
        Err(DecodeError::Truncated)
    } else {
        let f = i + 5;
        let flags = s[f + 2];
        match parse_string_at(s, f + 14) {
            Err(e) => Err(e),
            Ok((name, j)) => Ok(
                (
                    InfoModel {
                        font_size: i16_at(s, f),
                        smooth: flags & 0x80 != 0,
                        unicode: flags & 0x40 != 0,
                        italic: flags & 0x20 != 0,
                        bold: flags & 0x10 != 0,
                        fixed_height: flags & 0x08 != 0,
                        charset: s[f + 3],
                        stretch_h: u16_at(s, f + 4),
                        aa: s[f + 6],
                        padding_up: s[f + 7],
                        padding_right: s[f + 8],
                        padding_down: s[f + 9],
                        padding_left: s[f + 10],
                        spacing_horiz: s[f + 11],
                        spacing_vert: s[f + 12],
                        outline: s[f + 13],
                        font_name: name,
                    },
                    j,
                ),
            ),
        }
    }
}

/// The Common block at offset `i`: a 5-byte skipped prefix, then 15 bytes of
/// fixed fields.
pub open spec fn parse_common_at(s: Seq<u8>, i: int) -> Result<(Common, int), DecodeError>
    recommends
        0 <= i,
{
    if i + 20 > s.len() {
        Err(DecodeError::Truncated)
    } else {
        let f = i + 5;
        Ok(
            (
                Common {
                    line_height: u16_at(s, f),
                    base: u16_at(s, f + 2),
                    scale_w: u16_at(s, f + 4),
                    scale_h: u16_at(s, f + 6),
                    pages: u16_at(s, f + 8),
                    packed: s[f + 10] & 1 != 0,
                    alpha_chnl: s[f + 11],
                    red_chnl: s[f + 12],
                    green_chnl: s[f + 13],
                    blue_chnl: s[f + 14],
                },
                f + 15,
            ),
        )
    }
}

/// `n` consecutive null-terminated strings starting at offset `i`, in order,
/// with the offset just past the last one.
pub open spec fn parse_strings(s: Seq<u8>, i: int, n: nat) -> Result<
    (Seq<Seq<char>>, int),
    DecodeError,
>
    decreases n,
{
    if n == 0 {
        Ok((Seq::empty(), i))
    } else {
        match parse_string_at(s, i) {
            Err(e) => Err(e),
            Ok((first, j)) => match parse_strings(s, j, (n - 1) as nat) {
                Err(e) => Err(e),
                Ok((rest, k)) => Ok((seq![first] + rest, k)),
            },
        }
    }
}

/// The Pages block at offset `i`: a 5-byte skipped prefix, then exactly `n`
/// texture file names, where `n` is the page count the Common block declared.
pub open spec fn parse_pages_at(s: Seq<u8>, i: int, n: u16) -> Result<
    (Seq<Seq<char>>, int),
    DecodeError,
>
    recommends
        0 <= i,
{
    if i + 5 > s.len() {
        Err(DecodeError::Truncated)
    } else {
        parse_strings(s, i + 5, n as nat)
    }
}

/// The 20-byte glyph record at offset `g`.
pub open spec fn glyph_at(s: Seq<u8>, g: int) -> Char
    recommends
        0 <= g,
        g + 20 <= s.len(),
{
    Char {
        id: u32_at(s, g),
        x: u16_at(s, g + 4),
        y: u16_at(s, g + 6),
        width: u16_at(s, g + 8),
        height: u16_at(s, g + 10),
        xoffset: i16_at(s, g + 12),
        yoffset: i16_at(s, g + 14),
        xadvance: i16_at(s, g + 16),
        page: s[g + 18],
        chnl: s[g + 19],
    }
}

/// The Chars block at offset `i`: a 1-byte skipped tag, a 32-bit declared
/// byte size, then size ÷ 20 glyph records. A size that is not a multiple of
/// 20 leaves its remainder bytes unread; that is the format's tolerance, not
/// an error.
pub open spec fn parse_chars_at(s: Seq<u8>, i: int) -> Result<(Seq<Char>, int), DecodeError>
    recommends
        0 <= i,
{
    if i + 5 > s.len() {
        Err(DecodeError::Truncated)
    } else {
        let n = u32_at(s, i + 1) as int / 20;
        let base = i + 5;
        if base + n * 20 > s.len() {
            Err(DecodeError::Truncated)
        } else {
            Ok((Seq::new(n as nat, |k: int| glyph_at(s, base + k * 20)), base + n * 20))
        }
    }
}

/// The 10-byte kerning record at offset `g`.
pub open spec fn kerning_at(s: Seq<u8>, g: int) -> Kerning
    recommends
        0 <= g,
        g + 10 <= s.len(),
{
    Kerning { first: u32_at(s, g), second: u32_at(s, g + 4), amount: i16_at(s, g + 8) }
}

/// The optional Kernings block at offset `i`. A buffer that ends exactly at
/// `i` has no Kernings block at all (`None`); otherwise the block is a 1-byte
/// skipped tag, a 32-bit declared byte size, and size ÷ 10 kerning records.
pub open spec fn parse_kernings_at(s: Seq<u8>, i: int) -> Result<
    Option<Seq<Kerning>>,
    DecodeError,
>
    recommends
        0 <= i <= s.len(),
{
    if i >= s.len() {
        Ok(None)
    } else if i + 5 > s.len() {
        Err(DecodeError::Truncated)
    } else {
        let n = u32_at(s, i + 1) as int / 10;
        let base = i + 5;
        if base + n * 10 > s.len() {
            Err(DecodeError::Truncated)
        } else {
            Ok(Some(Seq::new(n as nat, |k: int| kerning_at(s, base + k * 10))))
        }
    }
}

/// The glyph map that a glyph sequence folds into: each glyph keyed by its
/// character code, a later record overwriting an earlier one with the same
/// code.
pub open spec fn glyph_map(gs: Seq<Char>) -> Map<u32, Char>
    decreases gs.len(),
{
    if gs.len() == 0 {
        Map::empty()
    } else {
        glyph_map(gs.drop_last()).insert(gs.last().id, gs.last())
    }
}

/// The whole decode: what `BMFont::new` returns, for every input buffer.
pub open spec fn spec_decode(s: Seq<u8>) -> Result<FontModel, DecodeError> {
    if s.len() < 4 {
        Err(DecodeError::Truncated)
    } else if !signature_ok(s) {
        Err(DecodeError::BadSignature)
    } else {
        match parse_info_at(s, 4) {
            Err(e) => Err(e),
            Ok((info, p1)) => match parse_common_at(s, p1) {
                Err(e) => Err(e),
                Ok((common, p2)) => match parse_pages_at(s, p2, common.pages) {
                    Err(e) => Err(e),
                    Ok((pages, p3)) => match parse_chars_at(s, p3) {
                        Err(e) => Err(e),
                        Ok((glyphs, p4)) => match parse_kernings_at(s, p4) {
                            Err(e) => Err(e),
                            Ok(kernings) => Ok(
                                FontModel {
                                    info,
                                    common,
                                    pages,
                                    chars: glyph_map(glyphs),
                                    kernings,
                                },
                            ),
                        },
                    },
                },
            },
        }
    }
}

} // verus!
