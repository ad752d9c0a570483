//! The laws this library guarantees across whole input streams and whole
//! cycles, proved of the assembler's mathematical model and of the output
//! spec functions.

use vstd::prelude::*;

use crate::MAX_SUBJECT_LEN;
use crate::assembler::AsmModel;
use crate::assembler::asm_step;
use crate::assembler::resume_step;
use crate::assembler::is_printable;
use crate::assembler::is_terminator;
use crate::output::prompt_bytes;
use crate::render::sig_lines;
use crate::render::hex_bytes;
use crate::render::lemma_hex_bytes_len;

verus! {

/// The state of a freshly started assembler.
pub open spec fn empty_state() -> AsmModel {
    AsmModel { buffer: Seq::empty(), pending: None, in_cycle: false }
}

/// The result of feeding a whole input stream: the final state and every
/// line that was completed along the way.
pub struct FeedOut {
    pub state: AsmModel,
    pub lines: Seq<Seq<u8>>,
}

/// Feeds a byte stream to the model, closing each completed cycle at once
/// (process the line, then resume), as the single-threaded event loop does.
pub open spec fn feed(s: AsmModel, input: Seq<u8>) -> FeedOut
    decreases input.len(),
{
    if input.len() == 0 {
        FeedOut { state: s, lines: Seq::empty() }
    } else {
        let r = asm_step(s, input[0]);
        let after = if r.state.in_cycle {
            resume_step(r.state).state
        } else {
            r.state
        };
        let rec = feed(after, input.skip(1));
        FeedOut {
            state: rec.state,
            lines: (match r.line {
                Some(l) => seq![l],
                None => Seq::empty(),
            }) + rec.lines,
        }
    }
}

/// How many bytes of the stream are printable (the ones a line accumulates).
pub open spec fn count_printable(input: Seq<u8>) -> nat
    decreases input.len(),
{
    if input.len() == 0 {
        0
    } else {
        (if is_printable(input[0]) {
            1nat
        } else {
            0nat
        }) + count_printable(input.skip(1))
    }
}

/// Law: an input stream without a line terminator, whose printable bytes fit
/// in the remaining length budget, completes no line and makes no request;
/// the buffer only grows, keeping its old contents, bounded by
/// `MAX_SUBJECT_LEN`.
pub proof fn lemma_no_terminator_no_request(s: AsmModel, input: Seq<u8>)
    requires
        !s.in_cycle,
        s.pending is None,
        s.buffer.len() + count_printable(input) <= MAX_SUBJECT_LEN,
        forall|i: int| 0 <= i < input.len() ==> !is_terminator(#[trigger] input[i]),
    ensures
        feed(s, input).lines.len() == 0,
        feed(s, input).state.buffer.len() == s.buffer.len() + count_printable(input),
        feed(s, input).state.buffer.len() <= MAX_SUBJECT_LEN,
        s.buffer.is_prefix_of(feed(s, input).state.buffer),
        !feed(s, input).state.in_cycle,
        feed(s, input).state.pending is None,
    decreases input.len(),
{
    if input.len() == 0 {
        assert(s.buffer.is_prefix_of(s.buffer));
    } else {
        let b = input[0];
        let r = asm_step(s, b);
        let after = r.state;
        assert(!r.state.in_cycle);
        lemma_no_terminator_no_request(after, input.skip(1));
        if is_printable(b) {
            assert(s.buffer.is_prefix_of(s.buffer.push(b)));
        }
        assert(s.buffer.is_prefix_of(feed(s, input).state.buffer));
    }
}

/// Feeding only printable bytes, within the length budget, appends exactly
/// those bytes to the buffer and completes nothing.
pub proof fn lemma_feed_printables(s: AsmModel, input: Seq<u8>)
    requires
        !s.in_cycle,
        s.pending is None,
        s.buffer.len() + input.len() <= MAX_SUBJECT_LEN,
        forall|i: int| 0 <= i < input.len() ==> is_printable(#[trigger] input[i]),
    ensures
        feed(s, input).lines.len() == 0,
        feed(s, input).state.buffer == s.buffer + input,
        !feed(s, input).state.in_cycle,
        feed(s, input).state.pending is None,
    decreases input.len(),
{
    if input.len() == 0 {
        assert(s.buffer + input =~= s.buffer);
    } else {
        let b = input[0];
        let r = asm_step(s, b);
        lemma_feed_printables(r.state, input.skip(1));
        assert(s.buffer.push(b) + input.skip(1) =~= s.buffer + input);
    }
}

/// Feeding a concatenated stream is feeding its parts in turn.
pub proof fn lemma_feed_append(s: AsmModel, a: Seq<u8>, b: Seq<u8>)
    ensures
        feed(s, a + b).state == feed(feed(s, a).state, b).state,
        feed(s, a + b).lines == feed(s, a).lines + feed(feed(s, a).state, b).lines,
    decreases a.len(),
{
    if a.len() == 0 {
        assert(a + b =~= b);
        assert(feed(s, a).lines + feed(s, b).lines =~= feed(s, b).lines);
    } else {
        let r = asm_step(s, (a + b)[0]);
        assert((a + b)[0] == a[0]);
        let after = if r.state.in_cycle {
            resume_step(r.state).state
        } else {
            r.state
        };
        assert((a + b).skip(1) =~= a.skip(1) + b);
        lemma_feed_append(after, a.skip(1), b);
        assert(feed(s, a + b).lines =~= feed(s, a).lines + feed(feed(s, a).state, b).lines);
    }
}

/// Law: a burst of `MAX_SUBJECT_LEN + 1` printable bytes, fed to a fresh
/// assembler, completes exactly one line — the first `MAX_SUBJECT_LEN` bytes,
/// flushed automatically when the last byte arrives — and that last byte is
/// buffered afresh as the start of the next line.
pub proof fn lemma_limit_flush(input: Seq<u8>)
    requires
        input.len() == MAX_SUBJECT_LEN + 1,
        forall|i: int| 0 <= i < input.len() ==> is_printable(#[trigger] input[i]),
    ensures
        feed(empty_state(), input).lines == seq![input.take(MAX_SUBJECT_LEN as int)],
        feed(empty_state(), input).state.buffer == seq![input[MAX_SUBJECT_LEN as int]],
        !feed(empty_state(), input).state.in_cycle,
    decreases input.len(),
{
    let first = input.take(MAX_SUBJECT_LEN as int);
    let last = seq![input[MAX_SUBJECT_LEN as int]];
    assert(input =~= first + last);
    lemma_feed_append(empty_state(), first, last);
    lemma_feed_printables(empty_state(), first);
    let s1 = feed(empty_state(), first).state;
    assert(s1.buffer =~= first);
    let r = asm_step(s1, last[0]);
    assert(r.line == Some(first));
    assert(r.state.in_cycle);
    let after = resume_step(r.state).state;
    assert(last.skip(1) =~= Seq::<u8>::empty());
    assert(feed(after, last.skip(1)).lines == Seq::<Seq<u8>>::empty());
    assert(feed(after, last.skip(1)).state == after);
    assert(feed(s1, last).lines =~= seq![first] + feed(after, last.skip(1)).lines);
    assert(seq![first] + Seq::<Seq<u8>>::empty() =~= seq![first]);
    assert(feed(s1, last).state == after);
    assert(Seq::<Seq<u8>>::empty() + seq![first] =~= seq![first]);
    assert(feed(empty_state(), input).lines =~= seq![first]);
    assert(after.buffer =~= last);
}

/// How many positions of the haystack a non-empty needle occurs at.
pub open spec fn count_occurrences(hay: Seq<u8>, needle: Seq<u8>) -> nat
    decreases hay.len(),
{
    if needle.len() == 0 || hay.len() < needle.len() {
        0
    } else {
        (if hay.subrange(0, needle.len() as int) == needle {
            1nat
        } else {
            0nat
        }) + count_occurrences(hay.skip(1), needle)
    }
}

/// Law: closing a cycle — completed or aborted — prints the prompt exactly
/// once before the next input byte is accepted: the bytes that `resume_step`
/// emits contain exactly one occurrence of the prompt.
pub proof fn lemma_one_prompt_per_cycle(s: AsmModel)
    ensures
        count_occurrences(resume_step(s).echoed, prompt_bytes()) == 1,
{
    let needle = prompt_bytes();
    let hay = resume_step(s).echoed;
    assert(hay.subrange(0, 9) =~= needle);
    match s.pending {
        Some(b) => {
            assert(hay.len() == 10);
            assert(hay.skip(1).subrange(0, 9)[0] == 97);
            assert(hay.skip(1).subrange(0, 9) != needle);
            assert(hay.skip(1).skip(1).len() < 9);
            assert(count_occurrences(hay.skip(1).skip(1), needle) == 0);
            assert(count_occurrences(hay.skip(1), needle) == 0);
        },
        None => {
            assert(hay.len() == 9);
            assert(hay.skip(1).len() < 9);
            assert(count_occurrences(hay.skip(1), needle) == 0);
        },
    }
    assert(count_occurrences(hay, needle) == 1);
}

/// Law: a terminator on an empty line reprompts exactly once: the echoed
/// bytes (a newline, then the prompt) contain exactly one occurrence of the
/// prompt.
pub proof fn lemma_one_prompt_empty_line(s: AsmModel, b: u8)
    requires
        is_terminator(b),
        s.buffer.len() == 0,
    ensures
        count_occurrences(asm_step(s, b).echoed, prompt_bytes()) == 1,
{
    let needle = prompt_bytes();
    let hay = asm_step(s, b).echoed;
    assert(hay.len() == 10);
    assert(hay.subrange(0, 9)[0] == 10);
    assert(hay.subrange(0, 9) != needle);
    assert(hay.skip(1) =~= needle);
    assert(hay.skip(1).subrange(0, 9) =~= needle);
    assert(hay.skip(1).skip(1).len() < 9);
    assert(count_occurrences(hay.skip(1).skip(1), needle) == 0);
    assert(count_occurrences(hay.skip(1), needle) == 1);
    assert(count_occurrences(hay, needle) == 1);
}

/// Law: the hex dump of an `L`-byte signature prints exactly `ceil(L / 32)`
/// lines, and the final line has `2 * (L mod 32)` hex characters when
/// `L mod 32 != 0`, else 64.
pub proof fn lemma_signature_chunking(sig: Seq<u8>)
    ensures
        sig_lines(sig).len() == (sig.len() + 31) / 32,
        sig.len() % 32 != 0 ==> sig_lines(sig).last().len() == 2 * (sig.len() % 32),
        sig.len() % 32 == 0 && sig.len() > 0 ==> sig_lines(sig).last().len() == 64,
    decreases sig.len(),
{
    if sig.len() == 0 {
    } else if sig.len() <= 32 {
        lemma_hex_bytes_len(sig);
        assert(sig_lines(sig).last() == hex_bytes(sig));
    } else {
        lemma_signature_chunking(sig.skip(32));
        lemma_hex_bytes_len(sig.take(32));
        assert(sig.skip(32).len() == sig.len() - 32);
        assert((sig.len() - 32 + 31) / 32 + 1 == (sig.len() + 31) / 32);
        assert((sig.len() - 32) % 32 == sig.len() % 32);
        assert(sig_lines(sig).last() == sig_lines(sig.skip(32)).last());
    }
}

} // verus!
