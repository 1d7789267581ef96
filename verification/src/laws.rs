//! Properties of the decoder that hold for every input, proved once and for
//! all against the model in [`crate::model`].

use crate::error::DecodeError;
use crate::font::{Char, FontModel, Kerning};
use crate::model::{
    find_nul, glyph_map, parse_chars_at, parse_kernings_at, parse_strings, spec_decode, u32_at,
};
use vstd::prelude::*;
use vstd::utf8::{decode_utf8_encode_utf8, encode_utf8};

verus! {

/// Decoding is deterministic: two documents decoded from the same bytes are
/// the same document. (`BMFont::new` equates its result with `spec_decode`,
/// a function of the bytes alone.)
pub proof fn lemma_decode_deterministic(s: Seq<u8>, a: FontModel, b: FontModel)
    requires
        spec_decode(s) == Ok::<FontModel, DecodeError>(a),
        spec_decode(s) == Ok::<FontModel, DecodeError>(b),
    ensures
        a == b,
{
}

/// A buffer of at least four bytes whose first four bytes are not the
/// signature always fails with `BadSignature`, whatever follows them.
pub proof fn lemma_bad_signature(s: Seq<u8>)
    requires
        s.len() >= 4,
        !(s[0] == 0x42 && s[1] == 0x4d && s[2] == 0x46 && s[3] == 0x03),
    ensures
        spec_decode(s) == Err::<FontModel, DecodeError>(DecodeError::BadSignature),
{
}

/// The kernings are absent exactly when the buffer ends at the offset where
/// the Kernings block would begin; a block that is present, even one whose
/// declared size is zero, yields a present (possibly empty) sequence.
pub proof fn lemma_kerning_presence(s: Seq<u8>, i: int)
    requires
        0 <= i <= s.len(),
    ensures
        (parse_kernings_at(s, i) == Ok::<Option<Seq<Kerning>>, DecodeError>(None)) <==> i
            == s.len(),
{
}

/// The Chars block yields exactly its declared byte size divided by the
/// 20-byte record width — a remainder is left unread, not an error — and
/// ends exactly after those records.
pub proof fn lemma_glyph_count(s: Seq<u8>, i: int)
    requires
        0 <= i,
    ensures
        parse_chars_at(s, i) matches Ok((gs, j)) ==> gs.len() == u32_at(s, i + 1) as int / 20 && j
            == i + 5 + 20 * gs.len(),
{
}

/// The glyph map contains a character code exactly when some record of the
/// Chars block carries it.
pub proof fn lemma_glyph_map_domain(gs: Seq<Char>, id: u32)
    ensures
        glyph_map(gs).contains_key(id) <==> exists|j: int| 0 <= j < gs.len() && gs[j].id == id,
    decreases gs.len(),
{
    if gs.len() > 0 {
        lemma_glyph_map_domain(gs.drop_last(), id);
        if glyph_map(gs).contains_key(id) && gs.last().id != id {
            let j = choose|j: int| 0 <= j < gs.len() - 1 && gs.drop_last()[j].id == id;
            assert(gs[j].id == id);
        }
        if exists|j: int| 0 <= j < gs.len() && gs[j].id == id {
            let j = choose|j: int| 0 <= j < gs.len() && gs[j].id == id;
            if j < gs.len() - 1 {
                assert(gs.drop_last()[j].id == id);
            }
        }
    }
}

/// Of records sharing one character code, the last wins: a record's fields
/// are the ones retrievable from the glyph map whenever no later record
/// carries the same code.
pub proof fn lemma_last_record_wins(gs: Seq<Char>, i: int)
    requires
        0 <= i < gs.len(),
        forall|j: int| i < j < gs.len() ==> gs[j].id != gs[i].id,
    ensures
        glyph_map(gs).contains_key(gs[i].id),
        glyph_map(gs)[gs[i].id] == gs[i],
    decreases gs.len(),
{
    if i < gs.len() - 1 {
        assert(forall|j: int| i < j < gs.len() - 1 ==> gs.drop_last()[j].id != gs[i].id);
        lemma_last_record_wins(gs.drop_last(), i);
        assert(gs.drop_last()[i] == gs[i]);
    }
}

/// `parse_strings` returns exactly as many strings as it was asked for.
proof fn lemma_parse_strings_len(s: Seq<u8>, i: int, n: nat)
    ensures
        parse_strings(s, i, n) matches Ok((ps, j)) ==> ps.len() == n,
    decreases n,
{
    if n > 0 {
        match crate::model::parse_string_at(s, i) {
            Ok((first, j)) => {
                lemma_parse_strings_len(s, j, (n - 1) as nat);
            },
            Err(e) => {},
        }
    }
}

/// `find_nul` returns the offset of a zero byte, with no zero byte before it.
proof fn lemma_find_nul_props(s: Seq<u8>, i: int)
    requires
        0 <= i,
    ensures
        find_nul(s, i) matches Some(n) ==> i <= n < s.len() && s[n] == 0 && (forall|k: int|
            i <= k < n ==> s[k] != 0),
    decreases s.len() - i,
{
    if i < s.len() && s[i] != 0 {
        lemma_find_nul_props(s, i + 1);
    }
}

/// A decoded font name holds no embedded null byte: it is the
/// null-terminator-delimited token itself, so its UTF-8 encoding — the exact
/// run of bytes before the terminator — is free of zero bytes.
pub proof fn lemma_font_name_no_nul(s: Seq<u8>, m: FontModel)
    requires
        spec_decode(s) == Ok::<FontModel, DecodeError>(m),
    ensures
        forall|k: int|
            0 <= k < encode_utf8(m.info.font_name).len() ==> encode_utf8(m.info.font_name)[k] != 0,
{
    let n = find_nul(s, 23)->Some_0;
    let body = s.subrange(23, n);
    decode_utf8_encode_utf8(body);
    lemma_find_nul_props(s, 23);
    assert forall|k: int| 0 <= k < encode_utf8(m.info.font_name).len() implies encode_utf8(
        m.info.font_name,
    )[k] != 0 by {
        assert(encode_utf8(m.info.font_name) == body);
        assert(body[k] == s[23 + k]);
    }
}

/// A decoded document holds exactly as many page names as its Common block
/// declared.
pub proof fn lemma_page_count(s: Seq<u8>, m: FontModel)
    requires
        spec_decode(s) == Ok::<FontModel, DecodeError>(m),
    ensures
        m.pages.len() == m.common.pages,
{
    let (info, p1) = crate::model::parse_info_at(s, 4)->Ok_0;
    let (common, p2) = crate::model::parse_common_at(s, p1)->Ok_0;
    lemma_parse_strings_len(s, p2 + 5, common.pages as nat);
}

} // verus!
