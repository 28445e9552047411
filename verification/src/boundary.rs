//! Category flags for grapheme cluster boundary decisions.
//!
//! Each scalar value is assigned at most one of these flags; the zero value
//! means the scalar value is ordinary and forms a boundary on its own.  The
//! flags are distinct bits so that a category is cheap to store and compare.

use vstd::prelude::*;

verus! {

/// Extending marks that never start a new cluster (combining accents).
pub const EXTEND: u32 = 0x01;

/// The zero-width joiner, used in multi-part emoji sequences.
pub const ZWJ: u32 = 0x02;

/// Spacing marks that attach to the preceding base character.
pub const SPACINGMARK: u32 = 0x04;

/// Marks that attach to the character that follows them.
pub const PREPEND: u32 = 0x08;

/// Regional indicator symbols, paired into flag emoji.
pub const REGIONAL: u32 = 0x10;

/// Emoji modifiers such as skin tones and the emoji variation selector.
pub const EMOJI_MOD: u32 = 0x20;

} // verus!
