//! The fixed texts written to the serial line, each as a spec-level byte
//! sequence together with a verified emitter that appends exactly those bytes.

use vstd::prelude::*;

verus! {

/// The byte written to end a line of serial output.
pub const NEWLINE: u8 = 10;

/// The prompt printed at startup and after every completed or aborted cycle:
/// `banscii> `.
pub open spec fn prompt_bytes() -> Seq<u8> {
    seq![98u8, 97u8, 110u8, 115u8, 99u8, 105u8, 105u8, 62u8, 32u8]
}

/// The notice printed when a printable byte arrives on a full line buffer:
/// a newline, `(char limit reached)`, and a newline.
pub open spec fn limit_notice_bytes() -> Seq<u8> {
    seq![
        10u8, 40u8, 99u8, 104u8, 97u8, 114u8, 32u8, 108u8, 105u8, 109u8, 105u8, 116u8, 32u8, 114u8, 101u8,
        97u8, 99u8, 104u8, 101u8, 100u8, 41u8, 10u8,
    ]
}

/// The recoverable-error report for a line that is not valid text:
/// `error: input is not valid utf-8` and a newline.
pub open spec fn encoding_error_bytes() -> Seq<u8> {
    seq![
        101u8, 114u8, 114u8, 111u8, 114u8, 58u8, 32u8, 105u8, 110u8, 112u8, 117u8, 116u8, 32u8, 105u8, 115u8,
        32u8, 110u8, 111u8, 116u8, 32u8, 118u8, 97u8, 108u8, 105u8, 100u8, 32u8, 117u8, 116u8, 102u8, 45u8,
        56u8, 10u8,
    ]
}

/// The header line printed before the hex dump: `Signature:` and a newline.
pub open spec fn signature_header_bytes() -> Seq<u8> {
    seq![83u8, 105u8, 103u8, 110u8, 97u8, 116u8, 117u8, 114u8, 101u8, 58u8, 10u8]
}

/// Appends the input prompt to the pending serial output.
pub fn emit_prompt(out: &mut Vec<u8>)
    ensures
        final(out)@ == old(out)@ + prompt_bytes(),
{
    out.push(98u8);
    out.push(97u8);
    out.push(110u8);
    out.push(115u8);
    out.push(99u8);
    out.push(105u8);
    out.push(105u8);
    out.push(62u8);
    out.push(32u8);
    assert(out@ =~= old(out)@ + prompt_bytes());
}

/// Appends a single newline to the pending serial output.
pub fn emit_newline(out: &mut Vec<u8>)
    ensures
        final(out)@ == old(out)@ + seq![NEWLINE],
{
    out.push(NEWLINE);
    assert(out@ =~= old(out)@ + seq![NEWLINE]);
}

/// Appends the character-limit notice to the pending serial output.
pub fn emit_limit_notice(out: &mut Vec<u8>)
    ensures
        final(out)@ == old(out)@ + limit_notice_bytes(),
{
    out.push(10u8);
    out.push(40u8);
    out.push(99u8);
    out.push(104u8);
    out.push(97u8);
    out.push(114u8);
    out.push(32u8);
    out.push(108u8);
    out.push(105u8);
    out.push(109u8);
    out.push(105u8);
    out.push(116u8);
    out.push(32u8);
    out.push(114u8);
    out.push(101u8);
    out.push(97u8);
    out.push(99u8);
    out.push(104u8);
    out.push(101u8);
    out.push(100u8);
    out.push(41u8);
    out.push(10u8);
    assert(out@ =~= old(out)@ + limit_notice_bytes());
}

/// Appends the invalid-text report to the pending serial output.
pub fn emit_encoding_error(out: &mut Vec<u8>)
    ensures
        final(out)@ == old(out)@ + encoding_error_bytes(),
{
    out.push(101u8);
    out.push(114u8);
    out.push(114u8);
    out.push(111u8);
    out.push(114u8);
    out.push(58u8);
    out.push(32u8);
    out.push(105u8);
    out.push(110u8);
    out.push(112u8);
    out.push(117u8);
    out.push(116u8);
    out.push(32u8);
    out.push(105u8);
    out.push(115u8);
    out.push(32u8);
    out.push(110u8);
    out.push(111u8);
    out.push(116u8);
    out.push(32u8);
    out.push(118u8);
    out.push(97u8);
    out.push(108u8);
    out.push(105u8);
    out.push(100u8);
    out.push(32u8);
    out.push(117u8);
    out.push(116u8);
    out.push(102u8);
    out.push(45u8);
    out.push(56u8);
    out.push(10u8);
    assert(out@ =~= old(out)@ + encoding_error_bytes());
}

/// Appends the signature header line to the pending serial output.
pub fn emit_signature_header(out: &mut Vec<u8>)
    ensures
        final(out)@ == old(out)@ + signature_header_bytes(),
{
    out.push(83u8);
    out.push(105u8);
    out.push(103u8);
    out.push(110u8);
    out.push(97u8);
    out.push(116u8);
    out.push(117u8);
    out.push(114u8);
    out.push(101u8);
    out.push(58u8);
    out.push(10u8);
    assert(out@ =~= old(out)@ + signature_header_bytes());
}

} // verus!
