//! The grapheme cluster value type and the scalar-value classifier.
//!
//! The classifier maps one Unicode scalar value to its boundary-relevant
//! category flag.  It is a total pure function: the same scalar value always
//! receives the same flag, and exactly one flag (or zero) applies.

use vstd::prelude::*;

use crate::boundary;
use crate::MAX_GRAPHEME_SIZE;

verus! {

/// True when the scalar value lies in the broad emoji ranges.
///
/// This predicate is wider than the `EMOJI_MOD` category: it is used only to
/// decide whether a zero-width joiner may be continued by the scalar value.
pub open spec fn is_emoji_spec(c: char) -> bool {
    (0x1F300 <= c as u32 && c as u32 <= 0x1F9FF) || (0x2600 <= c as u32 && c as u32 <= 0x26FF)
        || (0x2700 <= c as u32 && c as u32 <= 0x27BF)
}

/// True when the scalar value is an extending combining mark.
pub open spec fn is_extend_spec(c: char) -> bool {
    (0x0300 <= c as u32 && c as u32 <= 0x036F) || (0x1AB0 <= c as u32 && c as u32 <= 0x1AFF)
        || (0x1DC0 <= c as u32 && c as u32 <= 0x1DFF)
        || (0x20D0 <= c as u32 && c as u32 <= 0x20FF)
        || (0xFE20 <= c as u32 && c as u32 <= 0xFE2F)
}

/// True when the scalar value is a script-specific spacing mark.
pub open spec fn is_spacing_mark_spec(c: char) -> bool {
    c as u32 == 0x0903 || (0x093E <= c as u32 && c as u32 <= 0x0940) || (0x0949 <= c as u32
        && c as u32 <= 0x094C) || (0x094E <= c as u32 && c as u32 <= 0x094F) || (0x0982 <= c as u32
        && c as u32 <= 0x0983)
}

/// True when the scalar value is a prepended mark.
pub open spec fn is_prepend_spec(c: char) -> bool {
    (0x0600 <= c as u32 && c as u32 <= 0x0605) || c as u32 == 0x06DD || c as u32 == 0x070F || (
    0x0890 <= c as u32 && c as u32 <= 0x0891) || c as u32 == 0x08E2
}

/// The category flag of one scalar value, first matching rule winning.
pub open spec fn char_category_spec(c: char) -> u32 {
    if c as u32 == 0x200D {
        boundary::ZWJ
    } else if c as u32 == 0xFE0F || (0x1F3FB <= c as u32 && c as u32 <= 0x1F3FF) {
        boundary::EMOJI_MOD
    } else if 0x1F1E6 <= c as u32 && c as u32 <= 0x1F1FF {
        boundary::REGIONAL
    } else if (c as u32) < 0x80 {
        0u32
    } else if is_extend_spec(c) {
        boundary::EXTEND
    } else if is_spacing_mark_spec(c) {
        boundary::SPACINGMARK
    } else if is_prepend_spec(c) {
        boundary::PREPEND
    } else {
        0u32
    }
}

/// Determines if a scalar value lies in the emoji ranges.
pub fn is_emoji(c: char) -> (r: bool)
    ensures
        r == is_emoji_spec(c),
{
    let u = c as u32;
    (0x1F300 <= u && u <= 0x1F9FF) || (0x2600 <= u && u <= 0x26FF) || (0x2700 <= u && u <= 0x27BF)
}

/// Determines if a scalar value is an extending combining mark.
pub fn is_extend(c: char) -> (r: bool)
    ensures
        r == is_extend_spec(c),
{
    let u = c as u32;
    (0x0300 <= u && u <= 0x036F) || (0x1AB0 <= u && u <= 0x1AFF) || (0x1DC0 <= u && u <= 0x1DFF)
        || (0x20D0 <= u && u <= 0x20FF) || (0xFE20 <= u && u <= 0xFE2F)
}

/// Determines if a scalar value is a script-specific spacing mark.
pub fn is_spacing_mark(c: char) -> (r: bool)
    ensures
        r == is_spacing_mark_spec(c),
{
    let u = c as u32;
    u == 0x0903 || (0x093E <= u && u <= 0x0940) || (0x0949 <= u && u <= 0x094C) || (0x094E <= u
        && u <= 0x094F) || (0x0982 <= u && u <= 0x0983)
}

/// Determines if a scalar value is a prepended mark.
pub fn is_prepend(c: char) -> (r: bool)
    ensures
        r == is_prepend_spec(c),
{
    let u = c as u32;
    (0x0600 <= u && u <= 0x0605) || u == 0x06DD || u == 0x070F || (0x0890 <= u && u <= 0x0891)
        || u == 0x08E2
}

/// A completed grapheme cluster: up to [`MAX_GRAPHEME_SIZE`] scalar values.
///
/// The value is immutable once created; its view is the sequence of the `len`
/// valid scalar values in the fixed array.
#[derive(Debug, Clone, Copy)]
pub struct Grapheme {
    /// Fixed-size storage for the cluster's scalar values.
    chars: [char; MAX_GRAPHEME_SIZE],
    /// Number of valid scalar values at the front of the array.
    len: usize,
}

impl View for Grapheme {
    type V = Seq<char>;

    closed spec fn view(&self) -> Seq<char> {
        self.chars@.take(self.len as int)
    }
}

impl Grapheme {
    /// The length never exceeds the fixed capacity.
    #[verifier::type_invariant]
    spec fn inv(self) -> bool {
        self.len <= MAX_GRAPHEME_SIZE
    }

    /// Creates a grapheme cluster from an array and the count of valid slots.
    pub fn new(chars: [char; MAX_GRAPHEME_SIZE], len: usize) -> (r: Self)
        requires
            len <= MAX_GRAPHEME_SIZE,
        ensures
            r@ == chars@.take(len as int),
            r@.len() == len,
    {
        Grapheme { chars, len }
    }

    /// Returns the valid scalar values of this cluster, in order.
    pub fn as_chars(&self) -> (r: &[char])
        ensures
            r@ == self@,
    {
        proof {
            use_type_invariant(self);
        }
        vstd::slice::slice_subrange(self.chars.as_slice(), 0, self.len)
    }

    /// Returns the number of scalar values in this cluster.
    pub fn len(&self) -> (r: usize)
        ensures
            r == self@.len(),
    {
        proof {
            use_type_invariant(self);
        }
        self.len
    }

    /// Returns true when the cluster holds no scalar values.
    pub fn is_empty(&self) -> (r: bool)
        ensures
            r == (self@.len() == 0),
    {
        proof {
            use_type_invariant(self);
        }
        self.len == 0
    }

    /// Determines the boundary category flag of a scalar value.
    pub fn char_category(c: char) -> (r: u32)
        ensures
            r == char_category_spec(c),
    {
        let u = c as u32;
        if u == 0x200D {
            boundary::ZWJ
        } else if u == 0xFE0F || (0x1F3FB <= u && u <= 0x1F3FF) {
            boundary::EMOJI_MOD
        } else if 0x1F1E6 <= u && u <= 0x1F1FF {
            boundary::REGIONAL
        } else if u < 0x80 {
            0u32
        } else if is_extend(c) {
            boundary::EXTEND
        } else if is_spacing_mark(c) {
            boundary::SPACINGMARK
        } else if is_prepend(c) {
            boundary::PREPEND
        } else {
            0u32
        }
    }
}

} // verus!
