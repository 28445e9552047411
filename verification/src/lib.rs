//! Zero-allocation segmentation of text into extended grapheme clusters.
//!
//! The engine walks a stream of Unicode scalar values, groups them into
//! grapheme clusters with a bitflag classifier and a small boundary rule set,
//! and recognizes terminal ANSI escape sequences as atomic tokens.  All
//! intermediate storage is a fixed eight-slot buffer, so iteration performs no
//! heap allocation.  Alongside the engine live the plain data types of the
//! surrounding board-support code: pin and header enumerations and the
//! build-tooling value types.

use vstd::prelude::*;

pub mod boundary;
pub mod chip;
pub mod digital;
mod error;
mod grapheme;
pub mod iter;
pub mod laws;
pub mod model;
pub mod pi4;
pub mod pi5;
pub mod tooling;

pub use error::GraphemeError;
pub use grapheme::Grapheme;
pub use grapheme::is_emoji;
pub use grapheme::is_extend;
pub use grapheme::is_prepend;
pub use grapheme::is_spacing_mark;
pub use iter::GraphemeIterator;

verus! {

/// Maximum number of scalar values in one grapheme cluster.
///
/// Eight slots accommodate the longest common emoji sequences (for example a
/// four-member family emoji joined by three zero-width joiners) while keeping
/// the in-progress buffer on the stack.
pub const MAX_GRAPHEME_SIZE: usize = 8;

} // verus!
