//! The input assembler: a state machine that turns raw serial bytes into
//! completed subject lines, echoing accepted bytes, enforcing the
//! `MAX_SUBJECT_LEN` budget, and ignoring non-printable input.
//!
//! The machine is specified against a mathematical model (`AsmModel`,
//! `asm_step`, `resume_step`): every executable transition is proved to follow
//! the model exactly, and the laws about whole input streams are proved of the
//! model by induction.

use vstd::prelude::*;

use crate::MAX_SUBJECT_LEN;
use crate::output;
use crate::output::emit_newline;
use crate::output::emit_prompt;
use crate::output::emit_limit_notice;

verus! {

/// A byte that completes the current line.
pub open spec fn is_terminator(b: u8) -> bool {
    b == 10 || b == 13
}

/// A byte that is accepted into a subject: printable, non-control ASCII.
pub open spec fn is_printable(b: u8) -> bool {
    32 <= b && b <= 126
}

/// Mathematical state of the assembler: the collected line, the byte (if any)
/// whose echo is deferred until after a limit-triggered flush, and whether a
/// completed line is currently being processed (so the next prompt is owed).
pub struct AsmModel {
    pub buffer: Seq<u8>,
    pub pending: Option<u8>,
    pub in_cycle: bool,
}

/// Result of one model transition: the successor state, the bytes echoed to
/// the serial line, and the completed line, if this byte completed one.
pub struct StepOut {
    pub state: AsmModel,
    pub echoed: Seq<u8>,
    pub line: Option<Seq<u8>>,
}

/// The assembler's transition on one incoming serial byte, from a state that
/// is not mid-cycle.
///
/// A terminator on an empty line just reprompts; on a non-empty line it
/// completes the line. A printable byte on a full buffer first completes the
/// buffered line (the limit notice is printed, the byte itself is held back
/// until `resume_step`); otherwise it is echoed and buffered. Anything else
/// is ignored.
pub open spec fn asm_step(s: AsmModel, b: u8) -> StepOut {
    if is_terminator(b) {
        if s.buffer.len() == 0 {
            StepOut {
                state: AsmModel { buffer: s.buffer, pending: None, in_cycle: false },
                echoed: seq![output::NEWLINE] + output::prompt_bytes(),
                line: None,
            }
        } else {
            StepOut {
                state: AsmModel { buffer: Seq::empty(), pending: None, in_cycle: true },
                echoed: seq![output::NEWLINE],
                line: Some(s.buffer),
            }
        }
    } else if is_printable(b) {
        if s.buffer.len() < MAX_SUBJECT_LEN {
            StepOut {
                state: AsmModel { buffer: s.buffer.push(b), pending: None, in_cycle: false },
                echoed: seq![b],
                line: None,
            }
        } else {
            StepOut {
                state: AsmModel { buffer: Seq::empty(), pending: Some(b), in_cycle: true },
                echoed: output::limit_notice_bytes(),
                line: Some(s.buffer),
            }
        }
    } else {
        StepOut { state: s, echoed: Seq::empty(), line: None }
    }
}

/// The transition back out of a cycle: the prompt is reissued and a byte held
/// back by a limit-triggered flush is finally echoed and buffered.
pub open spec fn resume_step(s: AsmModel) -> StepOut {
    match s.pending {
        Some(b) => StepOut {
            state: AsmModel { buffer: s.buffer.push(b), pending: None, in_cycle: false },
            echoed: output::prompt_bytes() + seq![b],
            line: None,
        },
        None => StepOut {
            state: AsmModel { buffer: s.buffer, pending: None, in_cycle: false },
            echoed: output::prompt_bytes(),
            line: None,
        },
    }
}

/// The executable input assembler.
pub struct Assembler {
    pub buffer: Vec<u8>,
    pub pending: Option<u8>,
    pub in_cycle: bool,
}

impl Assembler {
    /// The mathematical state this assembler is in.
    pub open spec fn view(&self) -> AsmModel {
        AsmModel { buffer: self.buffer@, pending: self.pending, in_cycle: self.in_cycle }
    }

    /// Well-formedness: the line stays within budget and holds only printable
    /// bytes; a deferred byte exists only mid-cycle, right after a flush, and
    /// the buffer is empty while a completed line is being processed.
    pub open spec fn wf(&self) -> bool {
        &&& self.buffer@.len() <= MAX_SUBJECT_LEN
        &&& (forall|i: int| 0 <= i < self.buffer@.len() ==> is_printable(#[trigger] self.buffer@[i]))
        &&& (self.pending matches Some(b) ==> self.in_cycle && is_printable(b))
        &&& (self.in_cycle ==> self.buffer@.len() == 0)
    }

    /// A fresh assembler: empty line, not mid-cycle.
    pub fn new() -> (a: Assembler)
        ensures
            a.wf(),
            a@ == (AsmModel { buffer: Seq::<u8>::empty(), pending: None, in_cycle: false }),
    {
        Assembler { buffer: Vec::new(), pending: None, in_cycle: false }
    }

    /// Feeds one serial byte to the assembler. The echo it produces is
    /// appended to `out`; if this byte completed a line, that line is
    /// returned, the caller must process it and then call [`Self::resume`].
    /// The behaviour is exactly one `asm_step` of the model.
    pub fn handle_byte(&mut self, b: u8, out: &mut Vec<u8>) -> (line: Option<Vec<u8>>)
        requires
            old(self).wf(),
            !old(self).in_cycle,
        ensures
            final(self).wf(),
            final(self)@ == asm_step(old(self)@, b).state,
            final(out)@ == old(out)@ + asm_step(old(self)@, b).echoed,
            final(self).in_cycle <==> line is Some,
            (line matches Some(l) ==> asm_step(old(self)@, b).line == Some(l@)),
            (line is None ==> asm_step(old(self)@, b).line is None),
    {
        if b == 10 || b == 13 {
            emit_newline(out);
            if self.buffer.len() == 0 {
                emit_prompt(out);
                None
            } else {
                let mut line: Vec<u8> = Vec::new();
                core::mem::swap(&mut line, &mut self.buffer);
                self.in_cycle = true;
                Some(line)
            }
        } else if 32 <= b && b <= 126 {
            if self.buffer.len() == MAX_SUBJECT_LEN {
                emit_limit_notice(out);
                let mut line: Vec<u8> = Vec::new();
                core::mem::swap(&mut line, &mut self.buffer);
                self.pending = Some(b);
                self.in_cycle = true;
                Some(line)
            } else {
                out.push(b);
                self.buffer.push(b);
                assert(out@ =~= old(out)@ + asm_step(old(self)@, b).echoed);
                None
            }
        } else {
            assert(out@ =~= old(out)@ + asm_step(old(self)@, b).echoed);
            None
        }
    }

    /// Closes a cycle: reissues the prompt and, if a byte was held back by a
    /// limit-triggered flush, echoes and buffers it. Exactly one
    /// `resume_step` of the model.
    pub fn resume(&mut self, out: &mut Vec<u8>)
        requires
            old(self).wf(),
            old(self).in_cycle,
        ensures
            final(self).wf(),
            !final(self).in_cycle,
            final(self)@ == resume_step(old(self)@).state,
            final(out)@ == old(out)@ + resume_step(old(self)@).echoed,
    {
        emit_prompt(out);
        self.in_cycle = false;
        match self.pending {
            Some(b) => {
                out.push(b);
                self.buffer.push(b);
                self.pending = None;
                assert(out@ =~= old(out)@ + resume_step(old(self)@).echoed);
            }
            None => {}
        }
    }
}

} // verus!
