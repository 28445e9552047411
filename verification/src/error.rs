//! Error values produced while segmenting text into grapheme clusters.
//!
//! Both failure kinds carry the byte offset of the offending scalar value and
//! the length in bytes of its encoding, so a caller can point precisely into
//! the source text.  Neither kind is fatal to the enclosing iteration.

use vstd::prelude::*;
use vstd::string::StringExecFns;
use vstd::string::StrSliceExecFns;

verus! {

/// The character for one decimal digit.
pub open spec fn digit_char(d: nat) -> char {
    if d == 0 {
        '0'
    } else if d == 1 {
        '1'
    } else if d == 2 {
        '2'
    } else if d == 3 {
        '3'
    } else if d == 4 {
        '4'
    } else if d == 5 {
        '5'
    } else if d == 6 {
        '6'
    } else if d == 7 {
        '7'
    } else if d == 8 {
        '8'
    } else {
        '9'
    }
}

/// The decimal digits of `n`, most significant first.
pub open spec fn spec_decimal(n: nat) -> Seq<char>
    decreases n,
{
    if n < 10 {
        seq![digit_char(n)]
    } else {
        spec_decimal(n / 10).push(digit_char(n % 10))
    }
}

/// The one-character string for one decimal digit.
fn decimal_digit_str(d: usize) -> (r: &'static str)
    requires
        d < 10,
    ensures
        r@ == seq![digit_char(d as nat)],
{
    proof {
        reveal_strlit("0");
        reveal_strlit("1");
        reveal_strlit("2");
        reveal_strlit("3");
        reveal_strlit("4");
        reveal_strlit("5");
        reveal_strlit("6");
        reveal_strlit("7");
        reveal_strlit("8");
        reveal_strlit("9");
        assert("0"@ =~= seq!['0']);
        assert("1"@ =~= seq!['1']);
        assert("2"@ =~= seq!['2']);
        assert("3"@ =~= seq!['3']);
        assert("4"@ =~= seq!['4']);
        assert("5"@ =~= seq!['5']);
        assert("6"@ =~= seq!['6']);
        assert("7"@ =~= seq!['7']);
        assert("8"@ =~= seq!['8']);
        assert("9"@ =~= seq!['9']);
    }
    if d == 0 {
        "0"
    } else if d == 1 {
        "1"
    } else if d == 2 {
        "2"
    } else if d == 3 {
        "3"
    } else if d == 4 {
        "4"
    } else if d == 5 {
        "5"
    } else if d == 6 {
        "6"
    } else if d == 7 {
        "7"
    } else if d == 8 {
        "8"
    } else {
        "9"
    }
}

/// Renders `n` in decimal.
fn decimal(n: usize) -> (r: String)
    ensures
        r@ == spec_decimal(n as nat),
    decreases n,
{
    if n < 10 {
        let s = decimal_digit_str(n).to_owned();
        proof {
            assert(s@ =~= spec_decimal(n as nat));
        }
        s
    } else {
        let mut s = decimal(n / 10);
        s.append(decimal_digit_str(n % 10));
        proof {
            assert(s@ =~= spec_decimal(n as nat));
        }
        s
    }
}

/// An error met while segmenting text into grapheme clusters.
#[derive(Debug, Clone, Copy, PartialEq, Eq, Structural)]
pub enum GraphemeError {
    /// A scalar value outside ASCII appeared inside an unterminated ANSI
    /// escape sequence.
    InvalidAnsiSequence {
        /// Byte offset of the offending scalar value.
        offset: usize,
        /// Length in bytes of the offending scalar value's encoding.
        sequence_len: usize,
    },
    /// A grapheme cluster would have grown beyond [`crate::MAX_GRAPHEME_SIZE`]
    /// scalar values.
    BufferOverflow {
        /// Byte offset of the scalar value that would overflow the buffer.
        offset: usize,
        /// Length in bytes of that scalar value's encoding.
        sequence_len: usize,
    },
}

impl GraphemeError {
    /// The byte offset recorded in this error.
    pub open spec fn spec_offset(self) -> usize {
        match self {
            GraphemeError::InvalidAnsiSequence { offset, .. } => offset,
            GraphemeError::BufferOverflow { offset, .. } => offset,
        }
    }

    /// The encoded length recorded in this error.
    pub open spec fn spec_sequence_length(self) -> usize {
        match self {
            GraphemeError::InvalidAnsiSequence { sequence_len, .. } => sequence_len,
            GraphemeError::BufferOverflow { sequence_len, .. } => sequence_len,
        }
    }

    /// Creates a new `InvalidAnsiSequence` error.
    pub fn invalid_ansi(offset: usize, sequence_len: usize) -> (r: Self)
        ensures
            r == (GraphemeError::InvalidAnsiSequence { offset, sequence_len }),
    {
        GraphemeError::InvalidAnsiSequence { offset, sequence_len }
    }

    /// Creates a new `BufferOverflow` error.
    pub fn buffer_overflow(offset: usize, sequence_len: usize) -> (r: Self)
        ensures
            r == (GraphemeError::BufferOverflow { offset, sequence_len }),
    {
        GraphemeError::BufferOverflow { offset, sequence_len }
    }

    /// Returns the byte offset where the error occurred.
    pub fn offset(&self) -> (r: usize)
        ensures
            r == self.spec_offset(),
    {
        match self {
            GraphemeError::InvalidAnsiSequence { offset, .. } => *offset,
            GraphemeError::BufferOverflow { offset, .. } => *offset,
        }
    }

    /// Returns the length in bytes of the problematic sequence.
    pub fn sequence_length(&self) -> (r: usize)
        ensures
            r == self.spec_sequence_length(),
    {
        match self {
            GraphemeError::InvalidAnsiSequence { sequence_len, .. } => *sequence_len,
            GraphemeError::BufferOverflow { sequence_len, .. } => *sequence_len,
        }
    }

    /// Returns a short human-readable description of the error kind.
    pub fn message(&self) -> (r: &'static str)
        ensures
            self is InvalidAnsiSequence ==> r@ == "Invalid ANSI sequence"@,
            self is BufferOverflow ==> r@ == "Grapheme buffer overflow"@,
    {
        match self {
            GraphemeError::InvalidAnsiSequence { .. } => "Invalid ANSI sequence",
            GraphemeError::BufferOverflow { .. } => "Grapheme buffer overflow",
        }
    }

    /// The full one-line rendering of this error: message, offset, encoded
    /// length and remediation text.
    pub open spec fn spec_display(self) -> Seq<char> {
        (match self {
            GraphemeError::InvalidAnsiSequence { .. } => "Invalid ANSI sequence"@,
            GraphemeError::BufferOverflow { .. } => "Grapheme buffer overflow"@,
        }) + " at offset "@ + spec_decimal(self.spec_offset() as nat) + " (sequence length "@
            + spec_decimal(self.spec_sequence_length() as nat) + ")\nHelp: "@ + (match self {
            GraphemeError::InvalidAnsiSequence { .. } => "ANSI sequences must follow format: \\x1b[<n>m"@,
            GraphemeError::BufferOverflow { .. } => "Grapheme sequence exceeds maximum supported length (8 code points)"@,
        })
    }

    /// Renders the error as one human-readable line with its remediation
    /// text, combining [`GraphemeError::message`], the offset, the sequence
    /// length and [`GraphemeError::help`].
    pub fn display_string(&self) -> (r: String)
        ensures
            r@ == self.spec_display(),
    {
        let mut s = self.message().to_owned();
        s.append(" at offset ");
        let o = decimal(self.offset());
        s.append(o.as_str());
        s.append(" (sequence length ");
        let l = decimal(self.sequence_length());
        s.append(l.as_str());
        s.append(")\nHelp: ");
        s.append(self.help());
        proof {
            assert(s@ =~= self.spec_display());
        }
        s
    }

    /// Returns fixed remediation text for the error kind.
    pub fn help(&self) -> (r: &'static str)
        ensures
            self is InvalidAnsiSequence ==> r@ == "ANSI sequences must follow format: \\x1b[<n>m"@,
            self is BufferOverflow ==> r@
                == "Grapheme sequence exceeds maximum supported length (8 code points)"@,
    {
        match self {
            GraphemeError::InvalidAnsiSequence { .. } => {
                "ANSI sequences must follow format: \\x1b[<n>m"
            },
            GraphemeError::BufferOverflow { .. } => {
                "Grapheme sequence exceeds maximum supported length (8 code points)"
            },
        }
    }
}

} // verus!
