//! The ways a decode or a glyph lookup can fail.

use vstd::prelude::*;

verus! {

/// Failure of a decode or of a glyph lookup. Every failure is fatal for the
/// buffer it arose on: no partial document is ever returned.
#[derive(Clone, Copy, Debug, PartialEq, Eq, Structural)]
pub enum DecodeError {
    /// The first four bytes of the buffer are not the expected signature.
    BadSignature,
    /// A read or skip would have consumed bytes past the end of the buffer.
    Truncated,
    /// A string field's bytes are not valid UTF-8.
    InvalidEncoding,
    /// A looked-up character code has no glyph entry.
    MissingKey,
}

} // verus!
