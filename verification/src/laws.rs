//! Laws of the segmentation machine.
//!
//! Each public proof function here states, over the pure machine of
//! [`crate::model`], a behaviour that holds of whole classes of inputs: what
//! ASCII text yields, how combining marks and joiner sequences cluster, when
//! the fixed buffer overflows, how a malformed escape sequence is reported,
//! and what the end-of-input flush produces.

use vstd::prelude::*;

use crate::grapheme::char_category_spec;
use crate::grapheme::is_emoji_spec;
use crate::model::emitted;
use crate::model::init_state;
use crate::model::is_ascii_char;
use crate::model::is_esc;
use crate::model::step;
use crate::model::sum_utf8;
use crate::model::utf8_len_spec;
use crate::model::Machine;
use crate::model::Phase;
use crate::model::Token;
use crate::boundary;
use crate::MAX_GRAPHEME_SIZE;

verus! {

/// Splitting off the first scalar value splits the byte length accordingly.
proof fn lemma_sum_utf8_cons(x: char, t: Seq<char>)
    ensures
        sum_utf8(seq![x] + t) == utf8_len_spec(x) + sum_utf8(t),
{
    let s = seq![x] + t;
    assert(s.len() > 0);
    assert(s[0] == x);
    assert(s.drop_first() =~= t);
    assert(sum_utf8(s) == utf8_len_spec(x) + sum_utf8(t));
}

/// After one scalar value is committed, every further ASCII character closes
/// the pending one-scalar cluster and starts its own.
proof fn lemma_ascii_run(cfg: bool, x: char, prev: u32, pos: nat, s: Seq<char>)
    requires
        forall|i: int| 0 <= i < s.len() ==> is_ascii_char(#[trigger] s[i]) && !is_esc(s[i]),
    ensures
        ({
            let m = Machine { buf: seq![x], phase: Phase::InCluster, prev, pos };
            &&& emitted(cfg, m, s).len() == s.len() + 1
            &&& forall|i: int|
                0 <= i <= s.len() ==> emitted(cfg, m, s)[i] == Token::Cluster(
                    seq![if i == 0 { x } else { s[i - 1] }],
                )
        }),
    decreases s.len(),
{
    let m = Machine { buf: seq![x], phase: Phase::InCluster, prev, pos };
    if s.len() == 0 {
        assert(emitted(cfg, m, s) =~= seq![Token::Cluster(seq![x])]);
    } else {
        let c = s[0];
        let st = step(cfg, m, c);
        assert(seq![x].push(c).take(1) =~= seq![x]);
        assert(st.1 == Some(Token::Cluster(seq![x])));
        lemma_ascii_run(cfg, c, prev, pos + utf8_len_spec(c), s.drop_first());
        assert(emitted(cfg, m, s) == seq![Token::Cluster(seq![x])] + emitted(
            cfg,
            st.0,
            s.drop_first(),
        ));
        assert forall|i: int| 0 <= i <= s.len() implies emitted(cfg, m, s)[i] == Token::Cluster(
            seq![if i == 0 { x } else { s[i - 1] }],
        ) by {
            if i > 0 {
                assert(emitted(cfg, m, s)[i] == emitted(cfg, st.0, s.drop_first())[i - 1]);
            }
        }
    }
}

/// Law: on ASCII-only input without ESC bytes, the number of emitted clusters
/// equals the number of characters, and each cluster is that one character.
pub proof fn lemma_ascii_one_cluster_each(cfg: bool, s: Seq<char>)
    requires
        forall|i: int| 0 <= i < s.len() ==> is_ascii_char(#[trigger] s[i]) && !is_esc(s[i]),
    ensures
        emitted(cfg, init_state(), s).len() == s.len(),
        forall|i: int|
            0 <= i < s.len() ==> emitted(cfg, init_state(), s)[i] == Token::Cluster(seq![s[i]]),
{
    if s.len() == 0 {
        assert(emitted(cfg, init_state(), s) =~= Seq::<Token>::empty());
    } else {
        let c = s[0];
        let st = step(cfg, init_state(), c);
        assert(Seq::<char>::empty().push(c) =~= seq![c]);
        lemma_ascii_run(cfg, c, 0, utf8_len_spec(c), s.drop_first());
        assert(emitted(cfg, init_state(), s) == emitted(cfg, st.0, s.drop_first()));
        assert forall|i: int| 0 <= i < s.len() implies emitted(cfg, init_state(), s)[i]
            == Token::Cluster(seq![s[i]]) by {
            assert(emitted(cfg, st.0, s.drop_first())[i] == Token::Cluster(
                seq![if i == 0 { c } else { s.drop_first()[i - 1] }],
            ));
        }
    }
}

/// Extending marks are absorbed into the pending cluster while it has room.
proof fn lemma_extend_run(cfg: bool, b: Seq<char>, prev: u32, pos: nat, marks: Seq<char>)
    requires
        1 <= b.len(),
        b.len() + marks.len() <= MAX_GRAPHEME_SIZE,
        forall|i: int|
            0 <= i < marks.len() ==> char_category_spec(#[trigger] marks[i]) == boundary::EXTEND,
    ensures
        emitted(cfg, Machine { buf: b, phase: Phase::InCluster, prev, pos }, marks) == seq![
            Token::Cluster(b + marks),
        ],
    decreases marks.len(),
{
    let m = Machine { buf: b, phase: Phase::InCluster, prev, pos };
    if marks.len() == 0 {
        assert(b + marks =~= b);
        assert(emitted(cfg, m, marks) =~= seq![Token::Cluster(b)]);
    } else {
        let c = marks[0];
        assert(char_category_spec(c) == boundary::EXTEND);
        assert(!is_ascii_char(c) && !is_esc(c));
        let st = step(cfg, m, c);
        assert(st.1 is None);
        lemma_extend_run(cfg, b.push(c), char_category_spec(c), pos + utf8_len_spec(c), marks.drop_first());
        assert(b.push(c) + marks.drop_first() =~= b + marks);
        assert(emitted(cfg, m, marks) =~= seq![Token::Cluster(b + marks)]);
    }
}

/// Law: a base scalar value followed by up to seven extending combining marks
/// forms exactly one cluster holding all of them in order.
pub proof fn lemma_combining_marks_one_cluster(cfg: bool, c0: char, marks: Seq<char>)
    requires
        !is_esc(c0),
        1 <= marks.len(),
        1 + marks.len() <= MAX_GRAPHEME_SIZE,
        forall|i: int|
            0 <= i < marks.len() ==> char_category_spec(#[trigger] marks[i]) == boundary::EXTEND,
    ensures
        emitted(cfg, init_state(), seq![c0] + marks) == seq![Token::Cluster(seq![c0] + marks)],
{
    let s = seq![c0] + marks;
    assert(s[0] == c0);
    let st = step(cfg, init_state(), c0);
    assert(Seq::<char>::empty().push(c0) =~= seq![c0]);
    assert(st.0 =~= (Machine {
        buf: seq![c0],
        phase: Phase::InCluster,
        prev: 0,
        pos: utf8_len_spec(c0) as nat,
    }));
    assert(st.1 is None);
    lemma_extend_run(cfg, seq![c0], 0, utf8_len_spec(c0), marks);
    assert(s.drop_first() =~= marks);
    assert(emitted(cfg, init_state(), s) =~= seq![Token::Cluster(seq![c0] + marks)]);
}

/// With the buffer bound to overflow, extending marks are absorbed until the
/// buffer is full; the next one is reported at its own byte offset, and the
/// eight buffered scalar values are still flushed as one cluster.
proof fn lemma_extend_overflow_run(cfg: bool, b: Seq<char>, prev: u32, pos: nat, marks: Seq<char>)
    requires
        1 <= b.len() <= MAX_GRAPHEME_SIZE,
        b.len() + marks.len() == MAX_GRAPHEME_SIZE + 1,
        forall|i: int|
            0 <= i < marks.len() ==> char_category_spec(#[trigger] marks[i]) == boundary::EXTEND,
    ensures
        ({
            let k = MAX_GRAPHEME_SIZE - b.len();
            emitted(cfg, Machine { buf: b, phase: Phase::InCluster, prev, pos }, marks) == seq![
                Token::Overflow {
                    offset: pos + sum_utf8(marks.take(k)),
                    len: utf8_len_spec(marks[k]),
                },
                Token::Cluster(b + marks.take(k)),
            ]
        }),
    decreases marks.len(),
{
    let m = Machine { buf: b, phase: Phase::InCluster, prev, pos };
    let k = MAX_GRAPHEME_SIZE - b.len();
    let c = marks[0];
    assert(char_category_spec(c) == boundary::EXTEND);
    assert(!is_ascii_char(c) && !is_esc(c));
    let st = step(cfg, m, c);
    if b.len() == MAX_GRAPHEME_SIZE {
        assert(st.1 == Some(Token::Overflow { offset: pos, len: utf8_len_spec(c) }));
        assert(marks.take(0) =~= Seq::<char>::empty());
        assert(b + marks.take(0) =~= b);
        assert(marks.drop_first() =~= Seq::<char>::empty());
        assert(emitted(cfg, st.0, marks.drop_first()) =~= seq![Token::Cluster(b)]);
        assert(emitted(cfg, m, marks) =~= seq![
            Token::Overflow { offset: pos, len: utf8_len_spec(c) },
            Token::Cluster(b),
        ]);
    } else {
        assert(st.1 is None);
        lemma_extend_overflow_run(
            cfg,
            b.push(c),
            char_category_spec(c),
            pos + utf8_len_spec(c),
            marks.drop_first(),
        );
        let k2 = MAX_GRAPHEME_SIZE - b.len() - 1;
        assert(marks.take(k) =~= seq![c] + marks.drop_first().take(k2));
        lemma_sum_utf8_cons(c, marks.drop_first().take(k2));
        assert(pos + sum_utf8(marks.take(k)) == pos + utf8_len_spec(c) + sum_utf8(
            marks.drop_first().take(k2),
        ));
        assert(marks[k] == marks.drop_first()[k2]);
        assert(b + marks.take(k) =~= b.push(c) + marks.drop_first().take(k2));
        assert(emitted(cfg, m, marks) =~= seq![
            Token::Overflow { offset: pos + sum_utf8(marks.take(k)), len: utf8_len_spec(marks[k]) },
            Token::Cluster(b + marks.take(k)),
        ]);
    }
}

/// Law: appending a ninth scalar value to an in-progress cluster (a base
/// scalar value followed by eight extending marks) yields a buffer overflow
/// error whose offset is the byte offset of the ninth scalar value, followed
/// by the flush of the eight buffered scalar values.
pub proof fn lemma_ninth_scalar_overflows(cfg: bool, c0: char, marks: Seq<char>)
    requires
        !is_esc(c0),
        marks.len() == MAX_GRAPHEME_SIZE,
        forall|i: int|
            0 <= i < marks.len() ==> char_category_spec(#[trigger] marks[i]) == boundary::EXTEND,
    ensures
        ({
            let s = seq![c0] + marks;
            emitted(cfg, init_state(), s) == seq![
                Token::Overflow {
                    offset: sum_utf8(s.take(MAX_GRAPHEME_SIZE as int)),
                    len: utf8_len_spec(s[MAX_GRAPHEME_SIZE as int]),
                },
                Token::Cluster(s.take(MAX_GRAPHEME_SIZE as int)),
            ]
        }),
{
    let s = seq![c0] + marks;
    assert(s[0] == c0);
    let st = step(cfg, init_state(), c0);
    assert(Seq::<char>::empty().push(c0) =~= seq![c0]);
    assert(st.1 is None);
    lemma_extend_overflow_run(cfg, seq![c0], 0, utf8_len_spec(c0), marks);
    let k = MAX_GRAPHEME_SIZE - 1;
    assert(s.drop_first() =~= marks);
    assert(s.take(MAX_GRAPHEME_SIZE as int) =~= seq![c0] + marks.take(k));
    lemma_sum_utf8_cons(c0, marks.take(k));
    assert(sum_utf8(s.take(MAX_GRAPHEME_SIZE as int)) == utf8_len_spec(c0) + sum_utf8(
        marks.take(k),
    ));
    assert(s[MAX_GRAPHEME_SIZE as int] == marks[k]);
    assert(seq![c0] + marks.take(k) =~= s.take(MAX_GRAPHEME_SIZE as int));
    assert(emitted(cfg, init_state(), s) =~= seq![
        Token::Overflow {
            offset: sum_utf8(s.take(MAX_GRAPHEME_SIZE as int)),
            len: utf8_len_spec(s[MAX_GRAPHEME_SIZE as int]),
        },
        Token::Cluster(s.take(MAX_GRAPHEME_SIZE as int)),
    ]);
}

/// Alternating joiner/emoji pairs are absorbed into the pending cluster.
proof fn lemma_zwj_run(cfg: bool, b: Seq<char>, prev: u32, pos: nat, s: Seq<char>)
    requires
        1 <= b.len(),
        b.len() + s.len() <= MAX_GRAPHEME_SIZE,
        s.len() % 2 == 0,
        forall|i: int| 0 <= i < s.len() && i % 2 == 0 ==> #[trigger] s[i] == '\u{200D}',
        forall|i: int| 0 <= i < s.len() && i % 2 == 1 ==> is_emoji_spec(#[trigger] s[i]),
    ensures
        emitted(cfg, Machine { buf: b, phase: Phase::InCluster, prev, pos }, s) == seq![
            Token::Cluster(b + s),
        ],
    decreases s.len(),
{
    let m = Machine { buf: b, phase: Phase::InCluster, prev, pos };
    if s.len() == 0 {
        assert(b + s =~= b);
        assert(emitted(cfg, m, s) =~= seq![Token::Cluster(b)]);
    } else {
        let z = s[0];
        let e = s[1];
        assert(z == '\u{200D}');
        assert(is_emoji_spec(e));
        assert(char_category_spec(z) == boundary::ZWJ);
        assert(!is_ascii_char(z) && !is_esc(z));
        assert(!is_ascii_char(e) && !is_esc(e));
        let st1 = step(cfg, m, z);
        assert(st1.1 is None);
        let m1 = st1.0;
        assert(m1.prev == boundary::ZWJ);
        let st2 = step(cfg, m1, e);
        assert(char_category_spec(e) != boundary::ZWJ);
        assert(st2.1 is None);
        let rest = s.drop_first().drop_first();
        assert forall|i: int| 0 <= i < rest.len() && i % 2 == 0 implies #[trigger] rest[i]
            == '\u{200D}' by {
            assert(rest[i] == s[i + 2]);
        }
        assert forall|i: int| 0 <= i < rest.len() && i % 2 == 1 implies is_emoji_spec(
            #[trigger] rest[i],
        ) by {
            assert(rest[i] == s[i + 2]);
        }
        lemma_zwj_run(
            cfg,
            b.push(z).push(e),
            char_category_spec(e),
            pos + utf8_len_spec(z) + utf8_len_spec(e),
            rest,
        );
        assert(s.drop_first()[0] == e);
        assert(b.push(z).push(e) + rest =~= b + s);
        assert(emitted(cfg, m1, s.drop_first()) =~= seq![Token::Cluster(b + s)]);
        assert(emitted(cfg, m, s) =~= seq![Token::Cluster(b + s)]);
    }
}

/// Law: a zero-width-joiner-joined multi-part emoji sequence of at most eight
/// scalar values collapses to exactly one cluster.
pub proof fn lemma_zwj_sequence_one_cluster(cfg: bool, s: Seq<char>)
    requires
        1 <= s.len() <= MAX_GRAPHEME_SIZE,
        s.len() % 2 == 1,
        is_emoji_spec(s[0]),
        forall|i: int| 0 < i < s.len() && i % 2 == 1 ==> #[trigger] s[i] == '\u{200D}',
        forall|i: int| 0 < i < s.len() && i % 2 == 0 ==> is_emoji_spec(#[trigger] s[i]),
    ensures
        emitted(cfg, init_state(), s) == seq![Token::Cluster(s)],
{
    let e0 = s[0];
    assert(!is_ascii_char(e0) && !is_esc(e0));
    let st = step(cfg, init_state(), e0);
    assert(Seq::<char>::empty().push(e0) =~= seq![e0]);
    assert(st.1 is None);
    let rest = s.drop_first();
    assert forall|i: int| 0 <= i < rest.len() && i % 2 == 0 implies #[trigger] rest[i]
        == '\u{200D}' by {
        assert(rest[i] == s[i + 1]);
    }
    assert forall|i: int| 0 <= i < rest.len() && i % 2 == 1 implies is_emoji_spec(
        #[trigger] rest[i],
    ) by {
        assert(rest[i] == s[i + 1]);
    }
    lemma_zwj_run(cfg, seq![e0], 0, utf8_len_spec(e0), rest);
    assert(seq![e0] + rest =~= s);
    assert(emitted(cfg, init_state(), s) =~= seq![Token::Cluster(s)]);
}

/// Law: a non-ASCII scalar value immediately after ESC yields exactly one
/// invalid-escape error, whose offset points at that scalar value and whose
/// length is the byte length of its encoding.
pub proof fn lemma_non_ascii_in_ansi_rejected(cfg: bool, c: char)
    requires
        !is_ascii_char(c),
    ensures
        emitted(cfg, init_state(), seq!['\x1b', c]) == seq![
            Token::InvalidAnsi { offset: 1, len: utf8_len_spec(c) },
        ],
{
    let s = seq!['\x1b', c];
    assert(s[0] == '\x1b');
    assert(is_esc('\x1b'));
    let st1 = step(cfg, init_state(), '\x1b');
    assert(st1.1 is None);
    let m1 = st1.0;
    assert(m1.phase is InAnsi && m1.pos == 1 && m1.buf.len() == 0);
    assert(s.drop_first() =~= seq![c]);
    assert(!is_esc(c));
    let st2 = step(cfg, m1, c);
    assert(st2.1 == Some(Token::InvalidAnsi { offset: 1, len: utf8_len_spec(c) }));
    assert(st2.0.buf.len() == 0);
    assert(seq![c].drop_first() =~= Seq::<char>::empty());
    assert(emitted(cfg, st2.0, Seq::<char>::empty()) =~= Seq::<Token>::empty());
    assert(emitted(cfg, m1, seq![c]) =~= seq![
        Token::InvalidAnsi { offset: 1, len: utf8_len_spec(c) },
    ]);
    assert(emitted(cfg, init_state(), s) =~= seq![
        Token::InvalidAnsi { offset: 1, len: utf8_len_spec(c) },
    ]);
}

/// Law: the classifier is a total pure function into the fixed flag set; a
/// scalar value receives exactly one category flag, or zero.
pub proof fn lemma_classifier_flags(c: char)
    ensures
        char_category_spec(c) == 0 || char_category_spec(c) == boundary::EXTEND
            || char_category_spec(c) == boundary::ZWJ || char_category_spec(c)
            == boundary::SPACINGMARK || char_category_spec(c) == boundary::PREPEND
            || char_category_spec(c) == boundary::REGIONAL || char_category_spec(c)
            == boundary::EMOJI_MOD,
{
}

/// Law: at end of input a non-empty buffer is flushed as exactly one final
/// cluster holding the buffered scalar values; an empty buffer yields nothing
/// further.
pub proof fn lemma_end_of_input_flush(cfg: bool, m: Machine)
    ensures
        m.buf.len() > 0 ==> emitted(cfg, m, Seq::empty()) == seq![Token::Cluster(m.buf)],
        m.buf.len() == 0 ==> emitted(cfg, m, Seq::empty()) == Seq::<Token>::empty(),
{
    if m.buf.len() > 0 {
        assert(emitted(cfg, m, Seq::empty()) =~= seq![Token::Cluster(m.buf)]);
    } else {
        assert(emitted(cfg, m, Seq::empty()) =~= Seq::<Token>::empty());
    }
}

} // verus!
