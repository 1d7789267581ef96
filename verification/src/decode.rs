//! The decoder proper: block-by-block readers over the cursor, the glyph-map
//! assembler, and the public entry points on `BMFont`.

use crate::error::DecodeError;
use crate::font::{BMFont, Char, Common, FontModel, Info, Kerning};
use crate::model::{
    glyph_at, glyph_map, kerning_at, parse_chars_at, parse_common_at, parse_info_at,
    parse_kernings_at, parse_pages_at, parse_string_at, parse_strings, spec_decode,
};
use crate::reader::Reader;
use std::collections::HashMap;
use vstd::prelude::*;
use vstd::slice::slice_index_get;
use vstd::string::StringSliceAdditionalSpecFns;

verus! {

broadcast use vstd::std_specs::hash::group_hash_axioms;

/// Decode the Info block at the cursor.
fn read_info(r: &mut Reader) -> (res: Result<Info, DecodeError>)
    requires
        old(r).wf(),
    ensures
        final(r).wf(),
        final(r).bytes() == old(r).bytes(),
        match parse_info_at(old(r).bytes(), old(r).position()) {
            Ok((m, j)) => res matches Ok(info) && info@ == m && final(r).position() == j,
            Err(e) => res == Err::<Info, DecodeError>(e),
        },
{
    match r.skip(5) {
        Ok(()) => (),
        Err(e) => {
            return Err(e);
        },
    }
    let font_size = match r.read_i16() {
        Ok(v) => v,
        Err(e) => {
            return Err(e);
        },
    };
    let bit_field = match r.read_u8() {
        Ok(v) => v,
        Err(e) => {
            return Err(e);
        },
    };
    let charset = match r.read_u8() {
        Ok(v) => v,
        Err(e) => {
            return Err(e);
        },
    };
    let stretch_h = match r.read_u16() {
        Ok(v) => v,
        Err(e) => {
            return Err(e);
        },
    };
    let aa = match r.read_u8() {
        Ok(v) => v,
        Err(e) => {
            return Err(e);
        },
    };
    let padding_up = match r.read_u8() {
        Ok(v) => v,
        Err(e) => {
            return Err(e);
        },
    };
    let padding_right = match r.read_u8() {
        Ok(v) => v,
        Err(e) => {
            return Err(e);
        },
    };
    let padding_down = match r.read_u8() {
        Ok(v) => v,
        Err(e) => {
            return Err(e);
        },
    };
    let padding_left = match r.read_u8() {
        Ok(v) => v,
        Err(e) => {
            return Err(e);
        },
    };
    let spacing_horiz = match r.read_u8() {
        Ok(v) => v,
        Err(e) => {
            return Err(e);
        },
    };
    let spacing_vert = match r.read_u8() {
        Ok(v) => v,
        Err(e) => {
            return Err(e);
        },
    };
    let outline = match r.read_u8() {
        Ok(v) => v,
        Err(e) => {
            return Err(e);
        },
    };
    let font_name = match r.read_string() {
        Ok(v) => v,
        Err(e) => {
            return Err(e);
        },
    };
    Ok(
        Info {
            font_size,
            smooth: bit_field & 0x80 != 0,
            unicode: bit_field & 0x40 != 0,
            italic: bit_field & 0x20 != 0,
            bold: bit_field & 0x10 != 0,
            fixed_height: bit_field & 0x08 != 0,
            charset,
            stretch_h,
            aa,
            padding_up,
            padding_right,
            padding_down,
            padding_left,
            spacing_horiz,
            spacing_vert,
            outline,
            font_name,
        },
    )
}

/// Decode the Common block at the cursor.
fn read_common(r: &mut Reader) -> (res: Result<Common, DecodeError>)
    requires
        old(r).wf(),
    ensures
        final(r).wf(),
        final(r).bytes() == old(r).bytes(),
        match parse_common_at(old(r).bytes(), old(r).position()) {
            Ok((m, j)) => res == Ok::<Common, DecodeError>(m) && final(r).position() == j,
            Err(e) => res == Err::<Common, DecodeError>(e),
        },
{
    match r.skip(5) {
        Ok(()) => (),
        Err(e) => {
            return Err(e);
        },
    }
    let line_height = match r.read_u16() {
        Ok(v) => v,
        Err(e) => {
            return Err(e);
        },
    };
    let base = match r.read_u16() {
        Ok(v) => v,
        Err(e) => {
            return Err(e);
        },
    };
    let scale_w = match r.read_u16() {
        Ok(v) => v,
        Err(e) => {
            return Err(e);
        },
    };
    let scale_h = match r.read_u16() {
        Ok(v) => v,
        Err(e) => {
            return Err(e);
        },
    };
    let pages = match r.read_u16() {
        Ok(v) => v,
        Err(e) => {
            return Err(e);
        },
    };
    let packed_byte = match r.read_u8() {
        Ok(v) => v,
        Err(e) => {
            return Err(e);
        },
    };
    let alpha_chnl = match r.read_u8() {
        Ok(v) => v,
        Err(e) => {
            return Err(e);
        },
    };
    let red_chnl = match r.read_u8() {
        Ok(v) => v,
        Err(e) => {
            return Err(e);
        },
    };
    let green_chnl = match r.read_u8() {
        Ok(v) => v,
        Err(e) => {
            return Err(e);
        },
    };
    let blue_chnl = match r.read_u8() {
        Ok(v) => v,
        Err(e) => {
            return Err(e);
        },
    };
    Ok(
        Common {
            line_height,
            base,
            scale_w,
            scale_h,
            pages,
            packed: packed_byte & 1 != 0,
            alpha_chnl,
            red_chnl,
            green_chnl,
            blue_chnl,
        },
    )
}

/// Decode the Pages block at the cursor: `n` texture file names in order.
#[verifier::loop_isolation(false)]
fn read_pages(r: &mut Reader, n: u16) -> (res: Result<Vec<String>, DecodeError>)
    requires
        old(r).wf(),
    ensures
        final(r).wf(),
        final(r).bytes() == old(r).bytes(),
        match parse_pages_at(old(r).bytes(), old(r).position(), n) {
            Ok((ps, j)) => res matches Ok(v) && v.deep_view() == ps && final(r).position() == j,
            Err(e) => res == Err::<Vec<String>, DecodeError>(e),
        },
{
    match r.skip(5) {
        Ok(()) => (),
        Err(e) => {
            return Err(e);
        },
    }
    let ghost s = r.bytes();
    let ghost start = r.position();
    let mut pages: Vec<String> = Vec::new();
    let mut i: u16 = 0;
    while i < n
        invariant
            r.wf(),
            r.bytes() == s,
            i <= n,
            pages.deep_view().len() == i as int,
            parse_strings(s, start, n as nat) == (match parse_strings(
                s,
                r.position(),
                (n - i) as nat,
            ) {
                Ok((rest, k)) => Ok::<(Seq<Seq<char>>, int), DecodeError>(
                    (pages.deep_view() + rest, k),
                ),
                Err(e) => Err::<(Seq<Seq<char>>, int), DecodeError>(e),
            }),
        decreases n - i,
    {
        let ghost cur = r.position();
        let ghost pages_before = pages.deep_view();
        let name = match r.read_string() {
            Ok(v) => v,
            Err(e) => {
                return Err(e);
            },
        };
        pages.push(name);
        i = i + 1;
        proof {
            let (cs, j) = parse_string_at(s, cur)->Ok_0;
            assert(pages.deep_view() =~= pages_before.push(cs));
            match parse_strings(s, j, (n - i) as nat) {
                Ok((rest, k)) => {
                    assert(pages_before + (seq![cs] + rest) =~= pages.deep_view() + rest);
                },
                Err(e) => {},
            }
        }
    }
    proof {
        assert(pages.deep_view() + Seq::<Seq<char>>::empty() =~= pages.deep_view());
    }
    Ok(pages)
}

/// Decode the Chars block at the cursor: the declared byte size divided by
/// the 20-byte record width gives the glyph count.
#[verifier::loop_isolation(false)]
fn read_glyphs(r: &mut Reader) -> (res: Result<Vec<Char>, DecodeError>)
    requires
        old(r).wf(),
    ensures
        final(r).wf(),
        final(r).bytes() == old(r).bytes(),
        match parse_chars_at(old(r).bytes(), old(r).position()) {
            Ok((gs, j)) => res matches Ok(v) && v@ == gs && final(r).position() == j,
            Err(e) => res == Err::<Vec<Char>, DecodeError>(e),
        },
{
    match r.skip(1) {
        Ok(()) => (),
        Err(e) => {
            return Err(e);
        },
    }
    let size = match r.read_u32() {
        Ok(v) => v,
        Err(e) => {
            return Err(e);
        },
    };
    let n = size / 20;
    let ghost s = r.bytes();
    let ghost base = r.position();
    let mut glyphs: Vec<Char> = Vec::new();
    let mut i: u32 = 0;
    while i < n
        invariant
            r.wf(),
            r.bytes() == s,
            i <= n,
            glyphs@.len() == i as int,
            r.position() == base + i * 20,
            forall|k: int| 0 <= k < i ==> glyphs@[k] == glyph_at(s, base + k * 20),
        decreases n - i,
    {
        let id = match r.read_u32() {
            Ok(v) => v,
            Err(e) => {
                return Err(e);
            },
        };
        let x = match r.read_u16() {
            Ok(v) => v,
            Err(e) => {
                return Err(e);
            },
        };
        let y = match r.read_u16() {
            Ok(v) => v,
            Err(e) => {
                return Err(e);
            },
        };
        let width = match r.read_u16() {
            Ok(v) => v,
            Err(e) => {
                return Err(e);
            },
        };
        let height = match r.read_u16() {
            Ok(v) => v,
            Err(e) => {
                return Err(e);
            },
        };
        let xoffset = match r.read_i16() {
            Ok(v) => v,
            Err(e) => {
                return Err(e);
            },
        };
        let yoffset = match r.read_i16() {
            Ok(v) => v,
            Err(e) => {
                return Err(e);
            },
        };
        let xadvance = match r.read_i16() {
            Ok(v) => v,
            Err(e) => {
                return Err(e);
            },
        };
        let page = match r.read_u8() {
            Ok(v) => v,
            Err(e) => {
                return Err(e);
            },
        };
        let chnl = match r.read_u8() {
            Ok(v) => v,
            Err(e) => {
                return Err(e);
            },
        };
        glyphs.push(Char { id, x, y, width, height, xoffset, yoffset, xadvance, page, chnl });
        i = i + 1;
    }
    proof {
        assert(glyphs@ =~= Seq::new(n as nat, |k: int| glyph_at(s, base + k * 20)));
    }
    Ok(glyphs)
}

/// Decode the optional Kernings block at the cursor: absent exactly when the
/// buffer ended with the Chars block.
#[verifier::loop_isolation(false)]
fn read_kernings(r: &mut Reader) -> (res: Result<Option<Vec<Kerning>>, DecodeError>)
    requires
        old(r).wf(),
    ensures
        final(r).wf(),
        final(r).bytes() == old(r).bytes(),
        match parse_kernings_at(old(r).bytes(), old(r).position()) {
            Ok(ks) => res matches Ok(v) && (match v {
                Some(vec) => ks matches Some(sq) && vec@ == sq,
                None => ks is None,
            }),
            Err(e) => res == Err::<Option<Vec<Kerning>>, DecodeError>(e),
        },
{
    if !r.has_more() {
        return Ok(None);
    }
    match r.skip(1) {
        Ok(()) => (),
        Err(e) => {
            return Err(e);
        },
    }
    let size = match r.read_u32() {
        Ok(v) => v,
        Err(e) => {
            return Err(e);
        },
    };
    let n = size / 10;
    let ghost s = r.bytes();
    let ghost base = r.position();
    let mut pairs: Vec<Kerning> = Vec::new();
    let mut i: u32 = 0;
    while i < n
        invariant
            r.wf(),
            r.bytes() == s,
            i <= n,
            pairs@.len() == i as int,
            r.position() == base + i * 10,
            forall|k: int| 0 <= k < i ==> pairs@[k] == kerning_at(s, base + k * 10),
        decreases n - i,
    {
        let first = match r.read_u32() {
            Ok(v) => v,
            Err(e) => {
                return Err(e);
            },
        };
        let second = match r.read_u32() {
            Ok(v) => v,
            Err(e) => {
                return Err(e);
            },
        };
        let amount = match r.read_i16() {
            Ok(v) => v,
            Err(e) => {
                return Err(e);
            },
        };
        pairs.push(Kerning { first, second, amount });
        i = i + 1;
    }
    proof {
        assert(pairs@ =~= Seq::new(n as nat, |k: int| kerning_at(s, base + k * 10)));
    }
    Ok(Some(pairs))
}

/// Fold the decoded glyph sequence into the map keyed by character code; a
/// later record overwrites an earlier one with the same code.
#[verifier::loop_isolation(false)]
fn build_glyph_map(glyphs: &Vec<Char>) -> (m: HashMap<u32, Char>)
    ensures
        m@ == glyph_map(glyphs@),
{
    let mut m: HashMap<u32, Char> = HashMap::new();
    let mut i: usize = 0;
    while i < glyphs.len()
        invariant
            i <= glyphs@.len(),
            m@ == glyph_map(glyphs@.take(i as int)),
        decreases glyphs@.len() - i,
    {
        let g = glyphs[i];
        m.insert(g.id, g);
        proof {
            assert(glyphs@.take(i as int + 1).drop_last() =~= glyphs@.take(i as int));
            assert(glyphs@.take(i as int + 1).last() == glyphs@[i as int]);
        }
        i = i + 1;
    }
    proof {
        assert(glyphs@.take(glyphs@.len() as int) =~= glyphs@);
    }
    m
}

/// Decode a whole buffer: signature, the four mandatory blocks, and the
/// optional Kernings block, assembled into the document.
fn parse_bin(bytes: &[u8]) -> (r: Result<BMFont, DecodeError>)
    ensures
        match r {
            Ok(f) => spec_decode(bytes@) == Ok::<FontModel, DecodeError>(f@),
            Err(e) => spec_decode(bytes@) == Err::<FontModel, DecodeError>(e),
        },
{
    let mut rd = Reader::new(bytes);
    let b0 = match rd.read_u8() {
        Ok(v) => v,
        Err(e) => {
            return Err(e);
        },
    };
    let b1 = match rd.read_u8() {
        Ok(v) => v,
        Err(e) => {
            return Err(e);
        },
    };
    let b2 = match rd.read_u8() {
        Ok(v) => v,
        Err(e) => {
            return Err(e);
        },
    };
    let b3 = match rd.read_u8() {
        Ok(v) => v,
        Err(e) => {
            return Err(e);
        },
    };
    if !(b0 == 0x42 && b1 == 0x4d && b2 == 0x46 && b3 == 0x03) {
        return Err(DecodeError::BadSignature);
    }
    let info = match read_info(&mut rd) {
        Ok(v) => v,
        Err(e) => {
            return Err(e);
        },
    };
    let common = match read_common(&mut rd) {
        Ok(v) => v,
        Err(e) => {
            return Err(e);
        },
    };
    let pages = match read_pages(&mut rd, common.pages) {
        Ok(v) => v,
        Err(e) => {
            return Err(e);
        },
    };
    let glyphs = match read_glyphs(&mut rd) {
        Ok(v) => v,
        Err(e) => {
            return Err(e);
        },
    };
    let kernings = match read_kernings(&mut rd) {
        Ok(v) => v,
        Err(e) => {
            return Err(e);
        },
    };
    let chars = build_glyph_map(&glyphs);
    Ok(BMFont { info, common, pages, chars, kernings })
}

impl BMFont {
    /// Decode one binary font buffer into a document. The result is pinned,
    /// for every input, by the model: exactly `spec_decode(bytes@)`.
    pub fn new(bytes: &[u8]) -> (r: Result<BMFont, DecodeError>)
        ensures
            match r {
                Ok(f) => spec_decode(bytes@) == Ok::<FontModel, DecodeError>(f@),
                Err(e) => spec_decode(bytes@) == Err::<FontModel, DecodeError>(e),
            },
    {
        parse_bin(bytes)
    }

    /// Resolve each byte of `s` (not each code point: this is a single-byte
    /// charset convenience) as a character code in the glyph map, in input
    /// order. Fails with `MissingKey` exactly when some byte has no glyph.
    #[verifier::loop_isolation(false)]
    pub fn str_to_chars(&self, s: &str) -> (r: Result<Vec<Char>, DecodeError>)
        ensures
            r is Ok <==> (forall|k: int|
                0 <= k < s.spec_bytes().len() ==> self.chars@.contains_key(
                    (#[trigger] s.spec_bytes()[k]) as u32,
                )),
            r matches Ok(v) ==> v@ == Seq::new(
                s.spec_bytes().len(),
                |k: int| self.chars@[s.spec_bytes()[k] as u32],
            ),
            r matches Err(e) ==> e == DecodeError::MissingKey,
    {
        let bs = s.as_bytes();
        let mut out: Vec<Char> = Vec::new();
        let mut i: usize = 0;
        while i < bs.len()
            invariant
                bs@ == s.spec_bytes(),
                i <= bs@.len(),
                out@.len() == i as int,
                forall|k: int|
                    0 <= k < i ==> self.chars@.contains_key((#[trigger] s.spec_bytes()[k]) as u32)
                        && out@[k] == self.chars@[s.spec_bytes()[k] as u32],
            decreases bs@.len() - i,
        {
            let code: u32 = *slice_index_get(bs, i) as u32;
            match self.chars.get(&code) {
                Some(c) => out.push(*c),
                None => {
                    return Err(DecodeError::MissingKey);
                },
            }
            i = i + 1;
        }
        proof {
            assert(out@ =~= Seq::new(
                s.spec_bytes().len(),
                |k: int| self.chars@[s.spec_bytes()[k] as u32],
            ));
        }
        Ok(out)
    }
}

} // verus!
