//! Subject validation: a completed line must be valid UTF-8 text before it
//! may seed a render request. Validity is defined by a spec-level predicate
//! and checked by a verified scanner; an invalid line is reported on the
//! serial line and dropped without any cross-component call.

use vstd::prelude::*;

use crate::assembler::is_printable;
use crate::output::emit_encoding_error;
use crate::output::encoding_error_bytes;

verus! {

/// A UTF-8 continuation byte.
pub open spec fn is_cont(b: u8) -> bool {
    0x80 <= b && b <= 0xBF
}

/// Valid UTF-8, one encoded scalar value at a time: the well-formed byte
/// sequences of RFC 3629 (no overlong forms, no surrogates, nothing above
/// U+10FFFF).
pub open spec fn is_valid_utf8(s: Seq<u8>) -> bool
    decreases s.len(),
{
    if s.len() == 0 {
        true
    } else {
        let b0 = s[0];
        if b0 <= 0x7F {
            is_valid_utf8(s.skip(1))
        } else if 0xC2 <= b0 && b0 <= 0xDF {
            s.len() >= 2 && is_cont(s[1]) && is_valid_utf8(s.skip(2))
        } else if b0 == 0xE0 {
            s.len() >= 3 && 0xA0 <= s[1] && s[1] <= 0xBF && is_cont(s[2]) && is_valid_utf8(s.skip(3))
        } else if b0 == 0xED {
            s.len() >= 3 && 0x80 <= s[1] && s[1] <= 0x9F && is_cont(s[2]) && is_valid_utf8(s.skip(3))
        } else if 0xE1 <= b0 && b0 <= 0xEF {
            s.len() >= 3 && is_cont(s[1]) && is_cont(s[2]) && is_valid_utf8(s.skip(3))
        } else if b0 == 0xF0 {
            s.len() >= 4 && 0x90 <= s[1] && s[1] <= 0xBF && is_cont(s[2]) && is_cont(s[3])
                && is_valid_utf8(s.skip(4))
        } else if 0xF1 <= b0 && b0 <= 0xF3 {
            s.len() >= 4 && is_cont(s[1]) && is_cont(s[2]) && is_cont(s[3])
                && is_valid_utf8(s.skip(4))
        } else if b0 == 0xF4 {
            s.len() >= 4 && 0x80 <= s[1] && s[1] <= 0x8F && is_cont(s[2]) && is_cont(s[3])
                && is_valid_utf8(s.skip(4))
        } else {
            false
        }
    }
}

/// A line of printable ASCII is always valid text: the assembler only buffers
/// printable bytes, so a line it completes can never be rejected.
pub proof fn lemma_printable_is_valid(s: Seq<u8>)
    requires
        forall|i: int| 0 <= i < s.len() ==> is_printable(#[trigger] s[i]),
    ensures
        is_valid_utf8(s),
    decreases s.len(),
{
    if s.len() > 0 {
        assert(s[0] <= 0x7F);
        lemma_printable_is_valid(s.skip(1));
    }
}

/// Decides whether the collected bytes are valid UTF-8 text.
pub fn is_valid_text(line: &Vec<u8>) -> (r: bool)
    ensures
        r <==> is_valid_utf8(line@),
{
    let n = line.len();
    let mut i: usize = 0;
    proof {
        assert(line@.skip(0) =~= line@);
    }
    while i < n
        invariant
            i <= n,
            n == line@.len(),
            is_valid_utf8(line@) <==> is_valid_utf8(line@.skip(i as int)),
        decreases n - i,
    {
        let b0 = line[i];
        let rem = n - i;
        if b0 <= 0x7F {
            proof {
                assert(line@.skip(i as int).skip(1) =~= line@.skip(i as int + 1));
            }
            i = i + 1;
        } else if 0xC2 <= b0 && b0 <= 0xDF {
            if rem < 2 || !(0x80 <= line[i + 1] && line[i + 1] <= 0xBF) {
                assert(!is_valid_utf8(line@.skip(i as int)));
                return false;
            }
            proof {
                assert(line@.skip(i as int).skip(2) =~= line@.skip(i as int + 2));
            }
            i = i + 2;
        } else if b0 == 0xE0 {
            if rem < 3 || !(0xA0 <= line[i + 1] && line[i + 1] <= 0xBF)
                || !(0x80 <= line[i + 2] && line[i + 2] <= 0xBF) {
                assert(!is_valid_utf8(line@.skip(i as int)));
                return false;
            }
            proof {
                assert(line@.skip(i as int).skip(3) =~= line@.skip(i as int + 3));
            }
            i = i + 3;
        } else if b0 == 0xED {
            if rem < 3 || !(0x80 <= line[i + 1] && line[i + 1] <= 0x9F)
                || !(0x80 <= line[i + 2] && line[i + 2] <= 0xBF) {
                assert(!is_valid_utf8(line@.skip(i as int)));
                return false;
            }
            proof {
                assert(line@.skip(i as int).skip(3) =~= line@.skip(i as int + 3));
            }
            i = i + 3;
        } else if 0xE1 <= b0 && b0 <= 0xEF {
            if rem < 3 || !(0x80 <= line[i + 1] && line[i + 1] <= 0xBF)
                || !(0x80 <= line[i + 2] && line[i + 2] <= 0xBF) {
                assert(!is_valid_utf8(line@.skip(i as int)));
                return false;
            }
            proof {
                assert(line@.skip(i as int).skip(3) =~= line@.skip(i as int + 3));
            }
            i = i + 3;
        } else if b0 == 0xF0 {
            if rem < 4 || !(0x90 <= line[i + 1] && line[i + 1] <= 0xBF)
                || !(0x80 <= line[i + 2] && line[i + 2] <= 0xBF)
                || !(0x80 <= line[i + 3] && line[i + 3] <= 0xBF) {
                assert(!is_valid_utf8(line@.skip(i as int)));
                return false;
            }
            proof {
                assert(line@.skip(i as int).skip(4) =~= line@.skip(i as int + 4));
            }
            i = i + 4;
        } else if 0xF1 <= b0 && b0 <= 0xF3 {
            if rem < 4 || !(0x80 <= line[i + 1] && line[i + 1] <= 0xBF)
                || !(0x80 <= line[i + 2] && line[i + 2] <= 0xBF)
                || !(0x80 <= line[i + 3] && line[i + 3] <= 0xBF) {
                assert(!is_valid_utf8(line@.skip(i as int)));
                return false;
            }
            proof {
                assert(line@.skip(i as int).skip(4) =~= line@.skip(i as int + 4));
            }
            i = i + 4;
        } else if b0 == 0xF4 {
            if rem < 4 || !(0x80 <= line[i + 1] && line[i + 1] <= 0x8F)
                || !(0x80 <= line[i + 2] && line[i + 2] <= 0xBF)
                || !(0x80 <= line[i + 3] && line[i + 3] <= 0xBF) {
                assert(!is_valid_utf8(line@.skip(i as int)));
                return false;
            }
            proof {
                assert(line@.skip(i as int).skip(4) =~= line@.skip(i as int + 4));
            }
            i = i + 4;
        } else {
            assert(!is_valid_utf8(line@.skip(i as int)));
            return false;
        }
    }
    proof {
        assert(line@.skip(n as int) =~= Seq::<u8>::empty());
    }
    true
}

/// Accepts or rejects a completed line as the subject of a render request.
/// A valid line is handed back unchanged as the subject; an invalid one is
/// reported on the serial line and dropped, and no request is made.
pub fn accept_subject(line: Vec<u8>, out: &mut Vec<u8>) -> (subject: Option<Vec<u8>>)
    ensures
        is_valid_utf8(line@) ==> (subject matches Some(s) && s@ == line@)
            && final(out)@ == old(out)@,
        !is_valid_utf8(line@) ==> subject is None
            && final(out)@ == old(out)@ + encoding_error_bytes(),
{
    if is_valid_text(&line) {
        Some(line)
    } else {
        emit_encoding_error(out);
        None
    }
}

} // verus!
