use bmfont::{BMFont, DecodeError};

/// Append one 20-byte glyph record.
fn push_glyph(
    b: &mut Vec<u8>,
    id: u32,
    x: u16,
    y: u16,
    width: u16,
    height: u16,
    xoffset: i16,
    yoffset: i16,
    xadvance: i16,
    page: u8,
    chnl: u8,
) {
    b.extend_from_slice(&id.to_le_bytes());
    b.extend_from_slice(&x.to_le_bytes());
    b.extend_from_slice(&y.to_le_bytes());
    b.extend_from_slice(&width.to_le_bytes());
    b.extend_from_slice(&height.to_le_bytes());
    b.extend_from_slice(&xoffset.to_le_bytes());
    b.extend_from_slice(&yoffset.to_le_bytes());
    b.extend_from_slice(&xadvance.to_le_bytes());
    b.push(page);
    b.push(chnl);
}

/// The worked example: signature, Info("Arial", size 12, smooth), Common
/// (one page), Pages(["arial.png"]), Chars(one glyph for 'A'), no Kernings.
fn sample_font() -> Vec<u8> {
    let mut b: Vec<u8> = Vec::new();
    b.extend_from_slice(&[0x42, 0x4D, 0x46, 0x03]);
    // Info block: tag and declared size (both skipped unvalidated).
    b.push(1);
    b.extend_from_slice(&20u32.to_le_bytes());
    b.extend_from_slice(&12i16.to_le_bytes()); // font_size
    b.push(0x80); // flags: smooth only
    b.push(0); // charset
    b.extend_from_slice(&100u16.to_le_bytes()); // stretch_h
    b.push(1); // aa
    b.extend_from_slice(&[0, 0, 0, 0]); // padding up, right, down, left
    b.extend_from_slice(&[0, 0]); // spacing horizontal, vertical
    b.push(0); // outline
    b.extend_from_slice(b"Arial\0");
    // Common block.
    b.push(2);
    b.extend_from_slice(&15u32.to_le_bytes());
    b.extend_from_slice(&20u16.to_le_bytes()); // line_height
    b.extend_from_slice(&16u16.to_le_bytes()); // base
    b.extend_from_slice(&256u16.to_le_bytes()); // scale_w
    b.extend_from_slice(&256u16.to_le_bytes()); // scale_h
    b.extend_from_slice(&1u16.to_le_bytes()); // pages
    b.push(0); // packed byte
    b.extend_from_slice(&[0, 0, 0, 0]); // alpha, red, green, blue channels
    // Pages block.
    b.push(3);
    b.extend_from_slice(&10u32.to_le_bytes());
    b.extend_from_slice(b"arial.png\0");
    // Chars block: one 20-byte record.
    b.push(4);
    b.extend_from_slice(&20u32.to_le_bytes());
    push_glyph(&mut b, 65, 0, 0, 10, 12, 0, 0, 8, 0, 15);
    b
}

#[test]
fn round_trip_sample() {
    let font = BMFont::new(&sample_font()).unwrap();
    assert_eq!(font.info.font_size, 12);
    assert!(font.info.smooth);
    assert!(!font.info.unicode);
    assert!(!font.info.italic);
    assert!(!font.info.bold);
    assert!(!font.info.fixed_height);
    assert_eq!(font.info.charset, 0);
    assert_eq!(font.info.stretch_h, 100);
    assert_eq!(font.info.aa, 1);
    assert_eq!(font.info.outline, 0);
    assert_eq!(font.info.font_name, "Arial");
    assert_eq!(font.common.line_height, 20);
    assert_eq!(font.common.base, 16);
    assert_eq!(font.common.scale_w, 256);
    assert_eq!(font.common.scale_h, 256);
    assert_eq!(font.common.pages, 1);
    assert!(!font.common.packed);
    assert_eq!(font.pages, vec!["arial.png".to_string()]);
    assert_eq!(font.chars.len(), 1);
    let glyph = font.chars.get(&65).unwrap();
    assert_eq!(glyph.width, 10);
    assert_eq!(glyph.height, 12);
    assert_eq!(glyph.xadvance, 8);
    assert_eq!(glyph.page, 0);
    assert_eq!(glyph.chnl, 15);
    assert!(font.kernings.is_none());
}

#[test]
fn truncated_final_byte() {
    let mut bytes = sample_font();
    bytes.pop();
    let err = BMFont::new(&bytes).unwrap_err();
    assert_eq!(err, DecodeError::Truncated);
}

#[test]
fn bad_signature_regardless_of_content() {
    let mut bytes = sample_font();
    bytes[0] = 0x41;
    assert_eq!(BMFont::new(&bytes).unwrap_err(), DecodeError::BadSignature);
    let mut bytes = sample_font();
    bytes[3] = 0x02; // right magic, older format version
    assert_eq!(BMFont::new(&bytes).unwrap_err(), DecodeError::BadSignature);
}

#[test]
fn shorter_than_signature_is_truncated() {
    assert_eq!(BMFont::new(&[0x42, 0x4D]).unwrap_err(), DecodeError::Truncated);
    assert_eq!(BMFont::new(&[]).unwrap_err(), DecodeError::Truncated);
}

#[test]
fn glyph_count_from_size_60() {
    let mut bytes = sample_font();
    // Rewrite the Chars block: declared size 60 gives exactly three glyphs.
    let chars_tag = bytes.len() - 25;
    bytes.truncate(chars_tag + 1);
    bytes.extend_from_slice(&60u32.to_le_bytes());
    push_glyph(&mut bytes, 65, 0, 0, 10, 12, 0, 0, 8, 0, 15);
    push_glyph(&mut bytes, 66, 10, 0, 9, 12, 0, 0, 7, 0, 15);
    push_glyph(&mut bytes, 67, 19, 0, 8, 12, 0, 0, 6, 0, 15);
    let font = BMFont::new(&bytes).unwrap();
    assert_eq!(font.chars.len(), 3);
    assert_eq!(font.chars.get(&67).unwrap().xadvance, 6);
}

#[test]
fn glyph_count_from_size_45_truncating_division() {
    let mut bytes = sample_font();
    let chars_tag = bytes.len() - 25;
    bytes.truncate(chars_tag + 1);
    // 45 is not a multiple of 20: two glyphs, five trailing bytes not read
    // as glyph data (here they form an empty Kernings block).
    bytes.extend_from_slice(&45u32.to_le_bytes());
    push_glyph(&mut bytes, 65, 0, 0, 10, 12, 0, 0, 8, 0, 15);
    push_glyph(&mut bytes, 66, 10, 0, 9, 12, 0, 0, 7, 0, 15);
    bytes.extend_from_slice(&[0, 0, 0, 0, 0]);
    let font = BMFont::new(&bytes).unwrap();
    assert_eq!(font.chars.len(), 2);
    assert_eq!(font.kernings, Some(vec![]));
}

#[test]
fn kernings_absent_at_exact_end() {
    let font = BMFont::new(&sample_font()).unwrap();
    assert_eq!(font.kernings, None);
}

#[test]
fn kernings_block_of_size_zero_is_present_and_empty() {
    let mut bytes = sample_font();
    bytes.push(5);
    bytes.extend_from_slice(&0u32.to_le_bytes());
    let font = BMFont::new(&bytes).unwrap();
    assert_eq!(font.kernings, Some(vec![]));
}

#[test]
fn kerning_pairs_decoded_in_order() {
    let mut bytes = sample_font();
    bytes.push(5);
    bytes.extend_from_slice(&20u32.to_le_bytes());
    bytes.extend_from_slice(&65u32.to_le_bytes());
    bytes.extend_from_slice(&66u32.to_le_bytes());
    bytes.extend_from_slice(&(-2i16).to_le_bytes());
    bytes.extend_from_slice(&66u32.to_le_bytes());
    bytes.extend_from_slice(&65u32.to_le_bytes());
    bytes.extend_from_slice(&3i16.to_le_bytes());
    let font = BMFont::new(&bytes).unwrap();
    let kernings = font.kernings.unwrap();
    assert_eq!(kernings.len(), 2);
    assert_eq!(kernings[0].first, 65);
    assert_eq!(kernings[0].second, 66);
    assert_eq!(kernings[0].amount, -2);
    assert_eq!(kernings[1].first, 66);
    assert_eq!(kernings[1].second, 65);
    assert_eq!(kernings[1].amount, 3);
}

#[test]
fn flags_byte_all_set() {
    let mut bytes = sample_font();
    bytes[11] = 0b1111_1000;
    let font = BMFont::new(&bytes).unwrap();
    assert!(font.info.smooth);
    assert!(font.info.unicode);
    assert!(font.info.italic);
    assert!(font.info.bold);
    assert!(font.info.fixed_height);
}

#[test]
fn flags_byte_all_clear() {
    let mut bytes = sample_font();
    bytes[11] = 0;
    let font = BMFont::new(&bytes).unwrap();
    assert!(!font.info.smooth);
    assert!(!font.info.unicode);
    assert!(!font.info.italic);
    assert!(!font.info.bold);
    assert!(!font.info.fixed_height);
}

#[test]
fn duplicate_character_codes_last_record_wins() {
    let mut bytes = sample_font();
    let chars_tag = bytes.len() - 25;
    bytes.truncate(chars_tag + 1);
    bytes.extend_from_slice(&40u32.to_le_bytes());
    push_glyph(&mut bytes, 65, 0, 0, 10, 12, 0, 0, 8, 0, 15);
    push_glyph(&mut bytes, 65, 50, 60, 11, 13, 1, 2, 9, 1, 7);
    let font = BMFont::new(&bytes).unwrap();
    assert_eq!(font.chars.len(), 1);
    let glyph = font.chars.get(&65).unwrap();
    assert_eq!(glyph.x, 50);
    assert_eq!(glyph.y, 60);
    assert_eq!(glyph.xadvance, 9);
    assert_eq!(glyph.page, 1);
}

#[test]
fn negative_signed_fields() {
    let mut bytes = sample_font();
    // font_size at offset 9..11
    bytes[9..11].copy_from_slice(&(-12i16).to_le_bytes());
    let chars_tag = bytes.len() - 25;
    bytes.truncate(chars_tag + 1);
    bytes.extend_from_slice(&20u32.to_le_bytes());
    push_glyph(&mut bytes, 65, 0, 0, 10, 12, -3, -4, -5, 0, 15);
    let font = BMFont::new(&bytes).unwrap();
    assert_eq!(font.info.font_size, -12);
    let glyph = font.chars.get(&65).unwrap();
    assert_eq!(glyph.xoffset, -3);
    assert_eq!(glyph.yoffset, -4);
    assert_eq!(glyph.xadvance, -5);
}

#[test]
fn decode_is_deterministic() {
    let bytes = sample_font();
    let a = BMFont::new(&bytes).unwrap();
    let b = BMFont::new(&bytes).unwrap();
    assert_eq!(a.info, b.info);
    assert_eq!(a.common, b.common);
    assert_eq!(a.pages, b.pages);
    assert_eq!(a.chars, b.chars);
    assert_eq!(a.kernings, b.kernings);
}

#[test]
fn unterminated_font_name_is_truncated() {
    let mut bytes = sample_font();
    // Cut the buffer inside the font name, before its terminator.
    bytes.truncate(25);
    assert_eq!(BMFont::new(&bytes).unwrap_err(), DecodeError::Truncated);
}

#[test]
fn invalid_utf8_font_name() {
    let bytes_head = &sample_font()[..23];
    let mut bytes = bytes_head.to_vec();
    bytes.extend_from_slice(&[0xFF, 0xFE, 0x00]);
    assert_eq!(BMFont::new(&bytes).unwrap_err(), DecodeError::InvalidEncoding);
}

#[test]
fn multibyte_font_name_decoded() {
    let bytes_head = &sample_font()[..23];
    let mut bytes = bytes_head.to_vec();
    // "héllo" in UTF-8, then the rest of the sample unchanged.
    bytes.extend_from_slice(&[0x68, 0xC3, 0xA9, 0x6C, 0x6C, 0x6F, 0x00]);
    bytes.extend_from_slice(&sample_font()[29..]);
    let font = BMFont::new(&bytes).unwrap();
    assert_eq!(font.info.font_name, "h\u{e9}llo");
}

#[test]
fn two_pages_in_order() {
    let mut bytes = sample_font();
    // Declared page count lives in the Common block at offset 37..39.
    let pages_pos = 29 + 5 + 8;
    bytes[pages_pos..pages_pos + 2].copy_from_slice(&2u16.to_le_bytes());
    // Rebuild from the Pages block on: two names, then the Chars block.
    bytes.truncate(29 + 5 + 15);
    bytes.push(3);
    bytes.extend_from_slice(&12u32.to_le_bytes());
    bytes.extend_from_slice(b"a.png\0b.png\0");
    bytes.push(4);
    bytes.extend_from_slice(&20u32.to_le_bytes());
    push_glyph(&mut bytes, 65, 0, 0, 10, 12, 0, 0, 8, 0, 15);
    let font = BMFont::new(&bytes).unwrap();
    assert_eq!(font.common.pages, 2);
    assert_eq!(font.pages, vec!["a.png".to_string(), "b.png".to_string()]);
}

#[test]
fn str_to_chars_resolves_bytes_in_order() {
    let mut bytes = sample_font();
    let chars_tag = bytes.len() - 25;
    bytes.truncate(chars_tag + 1);
    bytes.extend_from_slice(&40u32.to_le_bytes());
    push_glyph(&mut bytes, 65, 0, 0, 10, 12, 0, 0, 8, 0, 15);
    push_glyph(&mut bytes, 66, 10, 0, 9, 12, 0, 0, 7, 0, 15);
    let font = BMFont::new(&bytes).unwrap();
    let glyphs = font.str_to_chars("ABA").unwrap();
    assert_eq!(glyphs.len(), 3);
    assert_eq!(glyphs[0].id, 65);
    assert_eq!(glyphs[1].id, 66);
    assert_eq!(glyphs[2].id, 65);
    assert_eq!(glyphs[1].xadvance, 7);
}

#[test]
fn str_to_chars_missing_glyph() {
    let font = BMFont::new(&sample_font()).unwrap();
    assert_eq!(font.str_to_chars("AB").unwrap_err(), DecodeError::MissingKey);
}

#[test]
fn str_to_chars_empty_input() {
    let font = BMFont::new(&sample_font()).unwrap();
    assert_eq!(font.str_to_chars("").unwrap(), vec![]);
}
