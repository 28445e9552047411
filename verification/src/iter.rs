//! The lazy segmentation iterator.
//!
//! [`GraphemeIterator`] consumes a text's scalar values one at a time and
//! produces completed grapheme clusters or diagnostic errors.  Its behaviour
//! is specified against the pure machine of [`crate::model`]: each advancing
//! call removes exactly the first token of [`crate::model::emitted`] applied
//! to the current machine state and the unread rest of the input.

use vstd::prelude::*;
use vstd::string::StrSliceExecFns;

use crate::boundary;
use crate::error::GraphemeError;
use crate::grapheme::char_category_spec;
use crate::grapheme::is_emoji;
use crate::grapheme::is_emoji_spec;
use crate::grapheme::Grapheme;
use crate::model::boundary_spec;
use crate::model::emitted;
use crate::model::init_state;
use crate::model::step;
use crate::model::sum_utf8;
use crate::model::utf8_len_spec;
use crate::model::Machine;
use crate::model::Phase;
use crate::model::Token;
use crate::MAX_GRAPHEME_SIZE;

verus! {

/// Bit mask extracting the phase bits of the packed state byte.
const STATE_MASK: u8 = 0b111;

/// Packed state value for the initial phase.
const STATE_START: u8 = 0;

/// Packed state value while a cluster is being accumulated.
const STATE_IN_GRAPHEME: u8 = 1;

/// Packed state value while inside an ANSI escape sequence.
const STATE_IN_ANSI: u8 = 2;

/// Length in bytes of the UTF-8 encoding of one scalar value.
pub fn utf8_len(c: char) -> (r: usize)
    ensures
        r == utf8_len_spec(c),
{
    let u = c as u32;
    if u < 0x80 {
        1
    } else if u < 0x800 {
        2
    } else if u < 0x10000 {
        3
    } else {
        4
    }
}

/// The token described by one item of the iterator.
pub open spec fn item_token(r: Result<Grapheme, GraphemeError>) -> Token {
    match r {
        Ok(g) => Token::Cluster(g@),
        Err(e) => match e {
            GraphemeError::InvalidAnsiSequence { offset, sequence_len } => Token::InvalidAnsi {
                offset: offset as nat,
                len: sequence_len as nat,
            },
            GraphemeError::BufferOverflow { offset, sequence_len } => Token::Overflow {
                offset: offset as nat,
                len: sequence_len as nat,
            },
        },
    }
}

/// The token described by the outcome of processing one scalar value.
pub open spec fn outcome_token(r: Result<Option<Grapheme>, GraphemeError>) -> Option<Token> {
    match r {
        Ok(None) => None,
        Ok(Some(g)) => Some(Token::Cluster(g@)),
        Err(e) => Some(item_token(Err(e))),
    }
}

/// Zero-allocation iterator over the grapheme clusters of a text.
///
/// Construction fixes whether recognized ANSI escape sequences are surfaced
/// as their own one-scalar tokens (`count_ansi`) or silently elided.  Calling
/// [`GraphemeIterator::next`] yields the clusters and errors in order; after
/// the source is exhausted and the final flush has been returned, every later
/// call yields nothing.
pub struct GraphemeIterator<'a> {
    /// The input text.
    text: &'a str,
    /// Total number of scalar values in the input.
    n_chars: usize,
    /// Number of scalar values already consumed.
    char_idx: usize,
    /// Byte offset of the next scalar value to be consumed.
    position: usize,
    /// Fixed-size storage for the in-progress cluster.
    buffer: [char; MAX_GRAPHEME_SIZE],
    /// Number of valid scalar values at the front of the buffer.
    buffer_len: usize,
    /// Packed state byte: phase in the low three bits, the ANSI counting flag
    /// in bit three.
    state: u8,
    /// Category flag of the scalar value classified most recently.
    prev_category: u32,
}

impl<'a> GraphemeIterator<'a> {
    /// Whether escape sequences are surfaced as tokens.
    pub closed spec fn spec_count_ansi(&self) -> bool {
        (self.state >> 3) & 1 == 1
    }

    /// The phase encoded in the packed state byte.
    pub closed spec fn spec_phase(&self) -> Phase {
        if self.state & STATE_MASK == STATE_START {
            Phase::Start
        } else if self.state & STATE_MASK == STATE_IN_GRAPHEME {
            Phase::InCluster
        } else {
            Phase::InAnsi
        }
    }

    /// The abstract machine state of this iterator.
    pub closed spec fn model(&self) -> Machine {
        Machine {
            buf: self.buffer@.take(self.buffer_len as int),
            phase: self.spec_phase(),
            prev: self.prev_category,
            pos: self.position as nat,
        }
    }

    /// The scalar values of the input not yet consumed.
    pub closed spec fn remaining(&self) -> Seq<char> {
        self.text@.skip(self.char_idx as int)
    }

    /// Internal consistency of buffer and phase.
    spec fn wf_machine(&self) -> bool {
        &&& self.buffer_len <= MAX_GRAPHEME_SIZE
        &&& self.state & STATE_MASK <= 2
        &&& self.spec_phase() is InAnsi ==> self.buffer_len == 0
    }

    /// Well-formedness: the cursor is inside the input, buffer and phase are
    /// consistent, and the running byte offset cannot overflow while
    /// consuming the rest of the input.
    pub closed spec fn wf(&self) -> bool {
        &&& self.n_chars == self.text@.len()
        &&& self.char_idx <= self.n_chars
        &&& self.wf_machine()
        &&& self.position + sum_utf8(self.remaining()) <= usize::MAX
    }

    /// Creates a new grapheme cluster iterator over `text`.
    ///
    /// `count_ansi` selects whether recognized ANSI escape sequences appear in
    /// the output as synthetic one-scalar clusters.
    pub fn new(text: &'a str, count_ansi: bool) -> (r: Self)
        ensures
            r.wf(),
            r.spec_count_ansi() == count_ansi,
            r.model() == init_state(),
            r.remaining() == text@,
    {
        let bytes = text.as_bytes();
        proof {
            assert(vstd::slice::spec_slice_len(bytes) == bytes@.len());
            crate::model::lemma_sum_utf8_is_encoding_len(text@);
            assert(sum_utf8(text@) <= usize::MAX);
        }
        let n = text.unicode_len();
        let r = GraphemeIterator {
            text,
            n_chars: n,
            char_idx: 0,
            position: 0,
            buffer: ['\0'; MAX_GRAPHEME_SIZE],
            buffer_len: 0,
            state: STATE_START | ((if count_ansi {
                1u8
            } else {
                0u8
            }) << 3),
            prev_category: 0,
        };
        proof {
            let s = r.state;
            let b: u8 = if count_ansi { 1u8 } else { 0u8 };
            assert(s & STATE_MASK == STATE_START && ((s >> 3) & 1 == 1) == (b == 1)) by (bit_vector)
                requires
                    s == STATE_START | (b << 3),
                    b == 0 || b == 1,
            ;
            assert(r.remaining() =~= text@);
            assert(r.model() =~= init_state());
        }
        r
    }

    /// Returns whether ANSI escape sequences are surfaced as tokens.
    fn count_ansi(&self) -> (r: bool)
        ensures
            r == self.spec_count_ansi(),
    {
        (self.state >> 3) & 1 == 1
    }

    /// Returns the packed phase bits of the current state.
    fn state(&self) -> (r: u8)
        ensures
            r == self.state & STATE_MASK,
    {
        self.state & STATE_MASK
    }

    /// Replaces the phase bits while preserving the ANSI counting flag.
    fn set_state(&mut self, new_state: u8)
        requires
            new_state <= 2,
        ensures
            final(self).state & STATE_MASK == new_state,
            final(self).spec_count_ansi() == old(self).spec_count_ansi(),
            final(self).text == old(self).text,
            final(self).n_chars == old(self).n_chars,
            final(self).char_idx == old(self).char_idx,
            final(self).position == old(self).position,
            final(self).buffer == old(self).buffer,
            final(self).buffer_len == old(self).buffer_len,
            final(self).prev_category == old(self).prev_category,
    {
        let ghost s = self.state;
        self.state = (self.state & !STATE_MASK) | new_state;
        proof {
            let t = self.state;
            assert(t & STATE_MASK == new_state && (t >> 3) & 1 == (s >> 3) & 1) by (bit_vector)
                requires
                    t == (s & !STATE_MASK) | new_state,
                    new_state <= 2,
            ;
        }
    }

    /// Determines whether a cluster boundary exists immediately before `c`.
    ///
    /// Also records `c`'s category flag for the next decision.  The very
    /// first buffered scalar value never forms a boundary.
    fn is_boundary(&mut self, c: char) -> (r: bool)
        ensures
            final(self).prev_category == char_category_spec(c),
            final(self).text == old(self).text,
            final(self).n_chars == old(self).n_chars,
            final(self).char_idx == old(self).char_idx,
            final(self).position == old(self).position,
            final(self).buffer == old(self).buffer,
            final(self).buffer_len == old(self).buffer_len,
            final(self).state == old(self).state,
            r == (old(self).buffer_len > 1 && boundary_spec(
                old(self).prev_category,
                char_category_spec(c),
                is_emoji_spec(c),
            )),
    {
        let category = Grapheme::char_category(c);

        if self.buffer_len <= 1 {
            self.prev_category = category;
            return false;
        }
        let is_b = if category == boundary::ZWJ {
            false
        } else if self.prev_category == boundary::ZWJ && is_emoji(c) {
            false
        } else if category == boundary::EXTEND {
            false
        } else if self.prev_category == boundary::REGIONAL && category == boundary::REGIONAL {
            false
        } else if category == boundary::EMOJI_MOD {
            false
        } else if category == boundary::SPACINGMARK {
            false
        } else if self.prev_category == boundary::PREPEND {
            false
        } else {
            true
        };
        self.prev_category = category;
        is_b
    }

    /// Processes a single scalar value, possibly completing a grapheme.
    ///
    /// Returns `Ok(Some(..))` when a cluster boundary was confirmed,
    /// `Ok(None)` when the scalar value was absorbed without completing a
    /// cluster, and `Err(..)` for an invalid escape sequence or a cluster
    /// that would exceed the fixed capacity.  The offending scalar value is
    /// consumed in every case: the byte offset always advances.
    fn process_char(&mut self, c: char) -> (r: Result<Option<Grapheme>, GraphemeError>)
        requires
            old(self).wf_machine(),
            old(self).position + utf8_len_spec(c) <= usize::MAX,
        ensures
            final(self).wf_machine(),
            final(self).text == old(self).text,
            final(self).n_chars == old(self).n_chars,
            final(self).char_idx == old(self).char_idx,
            final(self).spec_count_ansi() == old(self).spec_count_ansi(),
            final(self).model() == step(old(self).spec_count_ansi(), old(self).model(), c).0,
            outcome_token(r) == step(old(self).spec_count_ansi(), old(self).model(), c).1,
    {
        let ghost cfg = old(self).spec_count_ansi();
        let ghost m0 = old(self).model();

        let current_pos = self.position;
        let clen = utf8_len(c);
        self.position = self.position + clen;
        let u = c as u32;

        if u < 0x80 && u != 0x1B && self.state() == STATE_START {
            // ASCII fast path: a boundary is forced without running the
            // boundary rules.
            if self.buffer_len >= MAX_GRAPHEME_SIZE {
                proof {
                    assert(self.model() =~= step(cfg, m0, c).0);
                }
                return Err(GraphemeError::buffer_overflow(current_pos, clen));
            }
            self.buffer[self.buffer_len] = c;
            self.buffer_len = self.buffer_len + 1;

            if self.buffer_len == 1 {
                self.set_state(STATE_IN_GRAPHEME);
                proof {
                    assert(self.model().buf =~= m0.buf.push(c));
                    assert(self.model() =~= step(cfg, m0, c).0);
                }
                Ok(None)
            } else {
                let grapheme = Grapheme::new(self.buffer, self.buffer_len - 1);
                self.buffer[0] = self.buffer[self.buffer_len - 1];
                self.buffer_len = 1;
                self.set_state(STATE_IN_GRAPHEME);
                proof {
                    assert(grapheme@ =~= m0.buf.push(c).take(m0.buf.push(c).len() - 1));
                    assert(self.model().buf =~= seq![c]);
                    assert(self.model() =~= step(cfg, m0, c).0);
                }
                Ok(Some(grapheme))
            }
        } else if u == 0x1B {
            // Escape start: flush any buffered cluster and enter recognition.
            if self.buffer_len > 0 {
                let grapheme = Grapheme::new(self.buffer, self.buffer_len);
                self.buffer_len = 0;
                self.set_state(STATE_IN_ANSI);
                proof {
                    assert(grapheme@ =~= m0.buf);
                    assert(self.model().buf =~= Seq::<char>::empty());
                    assert(self.model() =~= step(cfg, m0, c).0);
                }
                Ok(Some(grapheme))
            } else {
                self.set_state(STATE_IN_ANSI);
                proof {
                    assert(self.model() =~= step(cfg, m0, c).0);
                }
                Ok(None)
            }
        } else if self.state() == STATE_IN_ANSI {
            if (0x41 <= u && u <= 0x5A) || (0x61 <= u && u <= 0x7A) {
                // ASCII alphabetic terminator ends the escape sequence.
                self.set_state(STATE_START);
                if self.count_ansi() {
                    self.buffer[0] = '\x1b';
                    let grapheme = Grapheme::new(self.buffer, 1);
                    proof {
                        assert(grapheme@ =~= seq!['\x1b']);
                        assert(self.model().buf =~= m0.buf);
                        assert(self.model() =~= step(cfg, m0, c).0);
                    }
                    Ok(Some(grapheme))
                } else {
                    proof {
                        assert(self.model() =~= step(cfg, m0, c).0);
                    }
                    Ok(None)
                }
            } else if u >= 0x80 {
                proof {
                    assert(self.model() =~= step(cfg, m0, c).0);
                }
                Err(GraphemeError::invalid_ansi(current_pos, clen))
            } else {
                proof {
                    assert(self.model() =~= step(cfg, m0, c).0);
                }
                Ok(None)
            }
        } else {
            // General accumulation path.
            if self.buffer_len >= MAX_GRAPHEME_SIZE {
                proof {
                    assert(self.model() =~= step(cfg, m0, c).0);
                }
                return Err(GraphemeError::buffer_overflow(current_pos, clen));
            }
            self.buffer[self.buffer_len] = c;
            self.buffer_len = self.buffer_len + 1;

            if self.buffer_len == 1 {
                self.set_state(STATE_IN_GRAPHEME);
                proof {
                    assert(self.model().buf =~= m0.buf.push(c));
                    assert(self.model() =~= step(cfg, m0, c).0);
                }
                Ok(None)
            } else {
                let boundary_here = if u < 0x80 {
                    true
                } else {
                    self.is_boundary(c)
                };
                if boundary_here {
                    let grapheme = Grapheme::new(self.buffer, self.buffer_len - 1);
                    self.buffer[0] = self.buffer[self.buffer_len - 1];
                    self.buffer_len = 1;
                    self.set_state(STATE_IN_GRAPHEME);
                    proof {
                        assert(grapheme@ =~= m0.buf.push(c).take(m0.buf.push(c).len() - 1));
                        assert(self.model().buf =~= seq![c]);
                        assert(self.model() =~= step(cfg, m0, c).0);
                    }
                    Ok(Some(grapheme))
                } else {
                    self.set_state(STATE_IN_GRAPHEME);
                    proof {
                        assert(self.model().buf =~= m0.buf.push(c));
                        assert(self.model() =~= step(cfg, m0, c).0);
                    }
                    Ok(None)
                }
            }
        }
    }

    /// Returns the next grapheme cluster or diagnostic error.
    ///
    /// The item returned is exactly the first token of
    /// [`emitted`] applied to the iterator's machine state and unread input,
    /// and the call removes that token: afterwards the iterator describes the
    /// rest of the token sequence.  Once no tokens are left the call returns
    /// nothing, and keeps doing so.
    pub fn next(&mut self) -> (r: Option<Result<Grapheme, GraphemeError>>)
        requires
            old(self).wf(),
        ensures
            final(self).wf(),
            final(self).spec_count_ansi() == old(self).spec_count_ansi(),
            old(self).model().pos <= final(self).model().pos,
            match r {
                None => {
                    &&& emitted(
                        old(self).spec_count_ansi(),
                        old(self).model(),
                        old(self).remaining(),
                    ) == Seq::<Token>::empty()
                    &&& emitted(
                        final(self).spec_count_ansi(),
                        final(self).model(),
                        final(self).remaining(),
                    ) == Seq::<Token>::empty()
                },
                Some(item) => {
                    let toks = emitted(
                        old(self).spec_count_ansi(),
                        old(self).model(),
                        old(self).remaining(),
                    );
                    &&& toks.len() > 0
                    &&& item_token(item) == toks[0]
                    &&& emitted(
                        final(self).spec_count_ansi(),
                        final(self).model(),
                        final(self).remaining(),
                    ) == toks.drop_first()
                },
            },
    {
        let ghost cfg = self.spec_count_ansi();
        let ghost toks0 = emitted(cfg, self.model(), self.remaining());

        while self.char_idx < self.n_chars
            invariant
                self.wf(),
                self.spec_count_ansi() == cfg,
                cfg == old(self).spec_count_ansi(),
                toks0 == emitted(
                    old(self).spec_count_ansi(),
                    old(self).model(),
                    old(self).remaining(),
                ),
                old(self).model().pos <= self.model().pos,
                emitted(cfg, self.model(), self.remaining()) == toks0,
            decreases self.n_chars - self.char_idx,
        {
            let ghost pre = self.model();
            let ghost rem_pre = self.remaining();
            let c = self.text.get_char(self.char_idx);
            proof {
                assert(rem_pre.len() > 0);
                assert(rem_pre[0] == c);
                assert(rem_pre.drop_first() =~= self.text@.skip(self.char_idx + 1));
            }
            self.char_idx = self.char_idx + 1;
            let outcome = self.process_char(c);
            proof {
                assert(self.remaining() == rem_pre.drop_first());
                assert(emitted(cfg, pre, rem_pre) == (match step(cfg, pre, c).1 {
                    Some(t) => seq![t],
                    None => Seq::<Token>::empty(),
                }) + emitted(cfg, step(cfg, pre, c).0, rem_pre.drop_first()));
            }
            match outcome {
                Ok(Some(g)) => {
                    proof {
                        assert(toks0[0] == Token::Cluster(g@));
                        assert(toks0.drop_first() =~= emitted(
                            cfg,
                            self.model(),
                            self.remaining(),
                        ));
                    }
                    return Some(Ok(g));
                },
                Ok(None) => {
                    proof {
                        assert(emitted(cfg, self.model(), self.remaining()) =~= toks0);
                    }
                },
                Err(e) => {
                    proof {
                        assert(toks0[0] == item_token(Err(e)));
                        assert(toks0.drop_first() =~= emitted(
                            cfg,
                            self.model(),
                            self.remaining(),
                        ));
                    }
                    return Some(Err(e));
                },
            }
        }
        proof {
            assert(self.remaining().len() == 0);
        }
        if self.buffer_len > 0 {
            let ghost pre = self.model();
            let grapheme = Grapheme::new(self.buffer, self.buffer_len);
            self.buffer_len = 0;
            proof {
                assert(grapheme@ =~= pre.buf);
                assert(toks0 =~= seq![Token::Cluster(pre.buf)]);
                assert(self.model().buf =~= Seq::<char>::empty());
                assert(emitted(cfg, self.model(), self.remaining()) =~= toks0.drop_first());
            }
            Some(Ok(grapheme))
        } else {
            proof {
                assert(toks0 =~= Seq::<Token>::empty());
            }
            None
        }
    }
}

} // verus!
