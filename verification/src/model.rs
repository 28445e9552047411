//! Pure model of the boundary/ANSI state machine.
//!
//! The executable iterator is specified against this model: [`step`] describes
//! how one scalar value advances the machine and what it emits, and
//! [`emitted`] gives the complete sequence of tokens that a machine state
//! produces on a given rest of the input, including the end-of-input flush.

use vstd::prelude::*;

use crate::boundary;
use crate::grapheme::char_category_spec;
use crate::grapheme::is_emoji_spec;
use crate::MAX_GRAPHEME_SIZE;

verus! {

/// Length in bytes of the UTF-8 encoding of one scalar value.
pub open spec fn utf8_len_spec(c: char) -> nat {
    if (c as u32) < 0x80 {
        1
    } else if (c as u32) < 0x800 {
        2
    } else if (c as u32) < 0x10000 {
        3
    } else {
        4
    }
}

/// Total byte length of the UTF-8 encoding of a sequence of scalar values.
pub open spec fn sum_utf8(s: Seq<char>) -> nat
    decreases s.len(),
{
    if s.len() == 0 {
        0
    } else {
        utf8_len_spec(s[0]) + sum_utf8(s.drop_first())
    }
}

/// The sum of the per-scalar encoded lengths is exactly the byte length of
/// the UTF-8 encoding of the whole sequence.
pub proof fn lemma_sum_utf8_is_encoding_len(s: Seq<char>)
    ensures
        sum_utf8(s) == vstd::utf8::encode_utf8(s).len(),
    decreases s.len(),
{
    if s.len() > 0 {
        vstd::utf8::char_is_scalar(s[0]);
        lemma_sum_utf8_is_encoding_len(s.drop_first());
    }
}

/// True when the scalar value is in the ASCII range.
pub open spec fn is_ascii_char(c: char) -> bool {
    (c as u32) < 0x80
}

/// True when the scalar value is the ESC control character.
pub open spec fn is_esc(c: char) -> bool {
    c as u32 == 0x1B
}

/// True when the scalar value is an ASCII alphabetic character, which
/// terminates an ANSI escape sequence.
pub open spec fn is_ascii_alpha(c: char) -> bool {
    (0x41 <= c as u32 && c as u32 <= 0x5A) || (0x61 <= c as u32 && c as u32 <= 0x7A)
}

/// The boundary decision for a newly arrived scalar value, given the category
/// of the previously buffered one.  First matching rule wins.
pub open spec fn boundary_spec(prev: u32, cat: u32, new_is_emoji: bool) -> bool {
    if cat == boundary::ZWJ {
        false
    } else if prev == boundary::ZWJ && new_is_emoji {
        false
    } else if cat == boundary::EXTEND {
        false
    } else if prev == boundary::REGIONAL && cat == boundary::REGIONAL {
        false
    } else if cat == boundary::EMOJI_MOD {
        false
    } else if cat == boundary::SPACINGMARK {
        false
    } else if prev == boundary::PREPEND {
        false
    } else {
        true
    }
}

/// The three phases of the segmentation machine.
pub enum Phase {
    /// No committed pending scalar value.
    Start,
    /// One or more scalar values are buffered, awaiting a boundary.
    InCluster,
    /// Inside an unterminated ANSI escape sequence.
    InAnsi,
}

/// The abstract state of the segmentation machine.
#[verifier::ext_equal]
pub struct Machine {
    /// Scalar values of the in-progress cluster, in arrival order.
    pub buf: Seq<char>,
    /// Current phase.
    pub phase: Phase,
    /// Category flag of the scalar value classified most recently.
    pub prev: u32,
    /// Byte offset of the next scalar value to be consumed.
    pub pos: nat,
}

/// One token emitted by the machine.
pub enum Token {
    /// A completed grapheme cluster.
    Cluster(Seq<char>),
    /// A scalar value outside ASCII inside an unterminated escape sequence.
    InvalidAnsi {
        /// Byte offset of the offending scalar value.
        offset: nat,
        /// Length in bytes of its encoding.
        len: nat,
    },
    /// A scalar value that would overflow the fixed cluster buffer.
    Overflow {
        /// Byte offset of the offending scalar value.
        offset: nat,
        /// Length in bytes of its encoding.
        len: nat,
    },
}

/// The machine state at the start of iteration.
pub open spec fn init_state() -> Machine {
    Machine { buf: Seq::empty(), phase: Phase::Start, prev: 0, pos: 0 }
}

/// Advances the machine by one scalar value; yields the new state and the
/// token emitted by this step, if any.
pub open spec fn step(cfg: bool, m: Machine, c: char) -> (Machine, Option<Token>) {
    let cur = m.pos;
    let clen = utf8_len_spec(c);
    let pos2 = m.pos + clen;
    if is_ascii_char(c) && !is_esc(c) && m.phase is Start {
        // ASCII fast path: a boundary is forced without consulting the rules.
        if m.buf.len() >= MAX_GRAPHEME_SIZE {
            (
                Machine { buf: m.buf, phase: m.phase, prev: m.prev, pos: pos2 },
                Some(Token::Overflow { offset: cur, len: clen }),
            )
        } else {
            let b2 = m.buf.push(c);
            if b2.len() == 1 {
                (Machine { buf: b2, phase: Phase::InCluster, prev: m.prev, pos: pos2 }, None)
            } else {
                (
                    Machine { buf: seq![c], phase: Phase::InCluster, prev: m.prev, pos: pos2 },
                    Some(Token::Cluster(b2.take(b2.len() - 1))),
                )
            }
        }
    } else if is_esc(c) {
        // Escape start: flush whatever is buffered, then recognize the sequence.
        if m.buf.len() > 0 {
            (
                Machine { buf: Seq::empty(), phase: Phase::InAnsi, prev: m.prev, pos: pos2 },
                Some(Token::Cluster(m.buf)),
            )
        } else {
            (Machine { buf: m.buf, phase: Phase::InAnsi, prev: m.prev, pos: pos2 }, None)
        }
    } else if m.phase is InAnsi {
        if is_ascii_alpha(c) {
            // Terminator: optionally surface the sequence as one ESC token.
            if cfg {
                (
                    Machine { buf: m.buf, phase: Phase::Start, prev: m.prev, pos: pos2 },
                    Some(Token::Cluster(seq!['\x1b'])),
                )
            } else {
                (Machine { buf: m.buf, phase: Phase::Start, prev: m.prev, pos: pos2 }, None)
            }
        } else if !is_ascii_char(c) {
            (
                Machine { buf: m.buf, phase: m.phase, prev: m.prev, pos: pos2 },
                Some(Token::InvalidAnsi { offset: cur, len: clen }),
            )
        } else {
            (Machine { buf: m.buf, phase: m.phase, prev: m.prev, pos: pos2 }, None)
        }
    } else {
        // General accumulation path.
        if m.buf.len() >= MAX_GRAPHEME_SIZE {
            (
                Machine { buf: m.buf, phase: m.phase, prev: m.prev, pos: pos2 },
                Some(Token::Overflow { offset: cur, len: clen }),
            )
        } else {
            let b2 = m.buf.push(c);
            if b2.len() == 1 {
                (Machine { buf: b2, phase: Phase::InCluster, prev: m.prev, pos: pos2 }, None)
            } else if is_ascii_char(c) {
                // ASCII always splits; the classifier is not consulted.
                (
                    Machine { buf: seq![c], phase: Phase::InCluster, prev: m.prev, pos: pos2 },
                    Some(Token::Cluster(b2.take(b2.len() - 1))),
                )
            } else {
                let cat = char_category_spec(c);
                if boundary_spec(m.prev, cat, is_emoji_spec(c)) {
                    (
                        Machine { buf: seq![c], phase: Phase::InCluster, prev: cat, pos: pos2 },
                        Some(Token::Cluster(b2.take(b2.len() - 1))),
                    )
                } else {
                    (Machine { buf: b2, phase: Phase::InCluster, prev: cat, pos: pos2 }, None)
                }
            }
        }
    }
}

/// Every token the machine emits from state `m` on the rest of the input,
/// including the final flush of a non-empty buffer at end of input.
pub open spec fn emitted(cfg: bool, m: Machine, rest: Seq<char>) -> Seq<Token>
    decreases rest.len(),
{
    if rest.len() == 0 {
        if m.buf.len() > 0 {
            seq![Token::Cluster(m.buf)]
        } else {
            Seq::empty()
        }
    } else {
        let s = step(cfg, m, rest[0]);
        (match s.1 {
            Some(t) => seq![t],
            None => Seq::empty(),
        }) + emitted(cfg, s.0, rest.drop_first())
    }
}

} // verus!
