//! Decoder for the binary bitmap-font description format (signature "BMF",
//! version 3): a single-pass reader that validates the signature, walks the
//! Info, Common, Pages, Chars and optional Kernings blocks in their fixed
//! order, and assembles a queryable font document with glyph lookup by
//! character code.

pub mod error;
pub mod font;
pub mod laws;
pub mod model;
mod decode;
mod reader;

pub use error::DecodeError;
pub use font::{BMFont, Char, Common, FontModel, Info, InfoModel, Kerning};
