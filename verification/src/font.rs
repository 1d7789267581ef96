//! The decoded font document and its parts, together with the mathematical
//! models that the decoder's contracts speak of.

use std::collections::HashMap;
use vstd::prelude::*;

verus! {

/// Global font metadata from the Info block. The five style flags are the
/// decomposition of one bit-packed byte.
#[derive(Debug, PartialEq, Eq)]
pub struct Info {
    pub font_size: i16,
    pub smooth: bool,
    pub unicode: bool,
    pub italic: bool,
    pub bold: bool,
    pub fixed_height: bool,
    pub charset: u8,
    pub stretch_h: u16,
    pub aa: u8,
    pub padding_up: u8,
    pub padding_right: u8,
    pub padding_down: u8,
    pub padding_left: u8,
    pub spacing_horiz: u8,
    pub spacing_vert: u8,
    pub outline: u8,
    pub font_name: String,
}

/// Shared rendering parameters from the Common block.
#[derive(Clone, Copy, Debug, PartialEq, Eq, Structural)]
pub struct Common {
    pub line_height: u16,
    pub base: u16,
    pub scale_w: u16,
    pub scale_h: u16,
    pub pages: u16,
    pub packed: bool,
    pub alpha_chnl: u8,
    pub red_chnl: u8,
    pub green_chnl: u8,
    pub blue_chnl: u8,
}

/// One character's metrics and atlas location, from a Chars block record.
#[derive(Clone, Copy, Debug, PartialEq, Eq, Structural)]
pub struct Char {
    pub id: u32,
    pub x: u16,
    pub y: u16,
    pub width: u16,
    pub height: u16,
    pub xoffset: i16,
    pub yoffset: i16,
    pub xadvance: i16,
    pub page: u8,
    pub chnl: u8,
}

/// A signed spacing adjustment between an ordered pair of character codes.
#[derive(Clone, Copy, Debug, PartialEq, Eq, Structural)]
pub struct Kerning {
    pub first: u32,
    pub second: u32,
    pub amount: i16,
}

/// The decoded font: the five blocks' contents, with glyphs indexed by
/// character code. Immutable once decoding has completed.
#[derive(Debug)]
pub struct BMFont {
    pub info: Info,
    pub common: Common,
    pub pages: Vec<String>,
    pub chars: HashMap<u32, Char>,
    pub kernings: Option<Vec<Kerning>>,
}

/// Mathematical model of an `Info` value: the same fields, with the font
/// name as a sequence of characters.
pub ghost struct InfoModel {
    pub font_size: i16,
    pub smooth: bool,
    pub unicode: bool,
    pub italic: bool,
    pub bold: bool,
    pub fixed_height: bool,
    pub charset: u8,
    pub stretch_h: u16,
    pub aa: u8,
    pub padding_up: u8,
    pub padding_right: u8,
    pub padding_down: u8,
    pub padding_left: u8,
    pub spacing_horiz: u8,
    pub spacing_vert: u8,
    pub outline: u8,
    pub font_name: Seq<char>,
}

/// Mathematical model of a decoded font document.
pub ghost struct FontModel {
    pub info: InfoModel,
    pub common: Common,
    pub pages: Seq<Seq<char>>,
    pub chars: Map<u32, Char>,
    pub kernings: Option<Seq<Kerning>>,
}

impl View for Info {
    type V = InfoModel;

    open spec fn view(&self) -> InfoModel {
        InfoModel {
            font_size: self.font_size,
            smooth: self.smooth,
            unicode: self.unicode,
            italic: self.italic,
            bold: self.bold,
            fixed_height: self.fixed_height,
            charset: self.charset,
            stretch_h: self.stretch_h,
            aa: self.aa,
            padding_up: self.padding_up,
            padding_right: self.padding_right,
            padding_down: self.padding_down,
            padding_left: self.padding_left,
            spacing_horiz: self.spacing_horiz,
            spacing_vert: self.spacing_vert,
            outline: self.outline,
            font_name: self.font_name@,
        }
    }
}

impl View for BMFont {
    type V = FontModel;

    open spec fn view(&self) -> FontModel {
        FontModel {
            info: self.info@,
            common: self.common,
            pages: self.pages.deep_view(),
            chars: self.chars@,
            kernings: match self.kernings {
                Some(ks) => Some(ks@),
                None => None,
            },
        }
    }
}

} // verus!
