//! The output renderer: walks the decoded reply's pixel buffer row-major and
//! prints it as a character grid, then prints the signature as a fixed-width
//! lowercase hex dump, 32 bytes (64 hex characters) per line.

use vstd::prelude::*;

use crate::output;
use crate::output::emit_newline;
use crate::output::emit_signature_header;
use crate::protocol::Fatal;
use crate::protocol::Reply;
use crate::protocol::Response;
use crate::protocol::copy_range;
use crate::protocol::decode_reply;
use crate::protocol::grid_fits;
use crate::protocol::reply_in_bounds;

verus! {

/// Signature bytes per hex-dump line.
pub const HEX_LINE_BYTES: usize = 32;

/// The lowercase hex digit for a nibble.
pub open spec fn hex_digit(n: int) -> u8 {
    if n < 10 {
        (48 + n) as u8
    } else {
        (87 + n) as u8
    }
}

/// Hex encoding of a byte sequence: two lowercase digits per byte, high
/// nibble first.
pub open spec fn hex_bytes(s: Seq<u8>) -> Seq<u8>
    decreases s.len(),
{
    if s.len() == 0 {
        Seq::empty()
    } else {
        seq![hex_digit(s[0] as int / 16), hex_digit(s[0] as int % 16)] + hex_bytes(s.skip(1))
    }
}

/// A hex line is twice as long as the bytes it encodes.
pub proof fn lemma_hex_bytes_len(s: Seq<u8>)
    ensures
        hex_bytes(s).len() == 2 * s.len(),
    decreases s.len(),
{
    if s.len() > 0 {
        lemma_hex_bytes_len(s.skip(1));
    }
}

/// Relies on hex::encode of the hex crate: each input byte becomes two
/// lowercase hex digits, high nibble first, drawn from `0123456789abcdef`.
#[verifier::external_body]
fn hex_line(chunk: &Vec<u8>) -> (r: Vec<u8>)
    ensures
        r@ == hex_bytes(chunk@),
{
    hex::encode(chunk).into_bytes()
}

/// The first `upto` rows of the pixel grid: each row is `width` raw pixel
/// bytes, row-major, followed by a newline.
pub open spec fn grid_rows(pixels: Seq<u8>, width: int, upto: int) -> Seq<u8>
    decreases upto,
{
    if upto <= 0 {
        Seq::empty()
    } else {
        grid_rows(pixels, width, upto - 1) + pixels.subrange((upto - 1) * width, upto * width)
            + seq![output::NEWLINE]
    }
}

/// The signature partitioned into consecutive 32-byte chunks (the last chunk
/// may be shorter), each hex-encoded as one line.
pub open spec fn sig_lines(sig: Seq<u8>) -> Seq<Seq<u8>>
    decreases sig.len(),
{
    if sig.len() == 0 {
        Seq::empty()
    } else if sig.len() <= HEX_LINE_BYTES {
        seq![hex_bytes(sig)]
    } else {
        seq![hex_bytes(sig.take(HEX_LINE_BYTES as int))] + sig_lines(sig.skip(HEX_LINE_BYTES as int))
    }
}

/// A list of output lines flattened into bytes, a newline after each line.
pub open spec fn lines_bytes(lines: Seq<Seq<u8>>) -> Seq<u8>
    decreases lines.len(),
{
    if lines.len() == 0 {
        Seq::empty()
    } else {
        lines[0] + seq![output::NEWLINE] + lines_bytes(lines.skip(1))
    }
}

/// Everything printed for one decoded reply: a blank line, the pixel grid, a
/// blank line, the signature header, the hex dump, and a final blank line.
pub open spec fn reply_output(pixels: Seq<u8>, width: int, height: int, sig: Seq<u8>) -> Seq<u8> {
    seq![output::NEWLINE] + grid_rows(pixels, width, height) + seq![output::NEWLINE]
        + output::signature_header_bytes() + lines_bytes(sig_lines(sig)) + seq![output::NEWLINE]
}

/// Writes the pixel grid row-major: the byte value itself is the glyph.
fn render_grid(pixels: &Vec<u8>, width: usize, height: usize, out: &mut Vec<u8>)
    requires
        width * height <= pixels@.len(),
    ensures
        final(out)@ == old(out)@ + grid_rows(pixels@, width as int, height as int),
{
    let np: usize = pixels.len();
    let mut row: usize = 0;
    while row < height
        invariant
            row <= height,
            np == pixels@.len(),
            width * height <= pixels@.len(),
            out@ == old(out)@ + grid_rows(pixels@, width as int, row as int),
        decreases height - row,
    {
        let mut col: usize = 0;
        proof {
            assert(0 <= (row as int) * (width as int) && (row as int) * (width as int) <= (
            width as int) * (height as int)) by (nonlinear_arith)
                requires
                    0 <= (row as int) < (height as int),
                    0 <= (width as int),
            ;
            assert(pixels@.subrange((row as int) * (width as int), (row as int) * (width as int))
                =~= Seq::<u8>::empty());
        }
        while col < width
            invariant
                col <= width,
                row < height,
                np == pixels@.len(),
                width * height <= pixels@.len(),
                (row as int) * (width as int) + (col as int) <= (width as int) * (height as int),
                out@ == old(out)@ + grid_rows(pixels@, width as int, row as int)
                    + pixels@.subrange((row as int) * (width as int), (row as int) * (width as int)
                    + col as int),
            decreases width - col,
        {
            proof {
                assert((row as int) * (width as int) + (col as int) < (width as int) * (height as int))
                    by (nonlinear_arith)
                    requires
                        0 <= (row as int) < (height as int),
                        0 <= (col as int) < (width as int),
                ;
            }
            out.push(pixels[row * width + col]);
            proof {
                assert(out@ =~= old(out)@ + grid_rows(pixels@, width as int, row as int)
                    + pixels@.subrange((row as int) * (width as int), (row as int) * (width as int)
                    + col as int + 1));
            }
            col = col + 1;
        }
        emit_newline(out);
        proof {
            assert((row as int) * (width as int) + (width as int) == (row as int + 1) * (width as int))
                by (nonlinear_arith);
            assert(out@ =~= old(out)@ + grid_rows(pixels@, width as int, row as int + 1));
        }
        row = row + 1;
    }
}

/// Writes the signature header and the chunked lowercase hex dump.
fn render_signature(sig: &Vec<u8>, out: &mut Vec<u8>)
    ensures
        final(out)@ == old(out)@ + output::signature_header_bytes() + lines_bytes(
            sig_lines(sig@),
        ),
{
    emit_signature_header(out);
    let n: usize = sig.len();
    let mut i: usize = 0;
    proof {
        assert(sig@.skip(0) =~= sig@);
    }
    while i < n
        invariant
            i <= n,
            n == sig@.len(),
            out@ + lines_bytes(sig_lines(sig@.skip(i as int))) == old(out)@
                + output::signature_header_bytes() + lines_bytes(sig_lines(sig@)),
        decreases n - i,
    {
        let ghost rest = sig@.skip(i as int);
        let len = if n - i < HEX_LINE_BYTES {
            n - i
        } else {
            HEX_LINE_BYTES
        };
        let chunk = copy_range(sig, i, len);
        proof {
            assert(chunk@ =~= rest.take(len as int));
            if rest.len() <= HEX_LINE_BYTES {
                assert(chunk@ =~= rest);
                assert(sig_lines(rest) == seq![hex_bytes(rest)]);
                assert(seq![hex_bytes(rest)].skip(1) =~= Seq::<Seq<u8>>::empty());
            } else {
                assert(sig_lines(rest) == seq![hex_bytes(rest.take(HEX_LINE_BYTES as int))]
                    + sig_lines(rest.skip(HEX_LINE_BYTES as int)));
                assert(sig_lines(rest).skip(1) =~= sig_lines(rest.skip(HEX_LINE_BYTES as int)));
                assert(rest.skip(HEX_LINE_BYTES as int) =~= sig@.skip(i + HEX_LINE_BYTES));
            }
        }
        let mut line = hex_line(&chunk);
        out.append(&mut line);
        emit_newline(out);
        proof {
            assert(sig_lines(rest)[0] == hex_bytes(chunk@));
            assert(lines_bytes(sig_lines(rest)) =~= hex_bytes(chunk@) + seq![output::NEWLINE]
                + lines_bytes(sig_lines(rest).skip(1)));
            assert(sig@.skip(i + len) =~= rest.skip(len as int));
            if rest.len() <= HEX_LINE_BYTES {
                assert(rest.skip(len as int) =~= Seq::<u8>::empty());
                assert(sig_lines(rest.skip(len as int)) =~= Seq::<Seq<u8>>::empty());
            }
        }
        i = i + len;
    }
    proof {
        assert(sig@.skip(n as int) =~= Seq::<u8>::empty());
    }
}

/// Renders one decoded reply to the serial output: blank line, pixel grid,
/// blank line, `Signature:` header, chunked hex dump, blank line.
pub fn render_reply(reply: &Reply, out: &mut Vec<u8>)
    requires
        reply.wf(),
    ensures
        final(out)@ == old(out)@ + reply_output(
            reply.pixels@,
            reply.width as int,
            reply.height as int,
            reply.signature@,
        ),
{
    emit_newline(out);
    render_grid(&reply.pixels, reply.width, reply.height, out);
    emit_newline(out);
    render_signature(&reply.signature, out);
    emit_newline(out);
    assert(out@ =~= old(out)@ + reply_output(
        reply.pixels@,
        reply.width as int,
        reply.height as int,
        reply.signature@,
    ));
}

/// Completes a cycle after the blocking call returns: validates the status
/// label, decodes the reply against the in region, and renders the pixel
/// grid and hex dump to the serial output. On any fatal condition nothing is
/// printed and the violation is named; otherwise the output is exactly the
/// reply's rendering.
pub fn handle_reply(
    status_ok: bool,
    resp: &Response,
    region_in: &Vec<u8>,
    out: &mut Vec<u8>,
) -> (r: Result<(), Fatal>)
    requires
        region_in@.len() == crate::REGION_SIZE,
    ensures
        match r {
            Ok(()) => {
                &&& status_ok
                &&& reply_in_bounds(*resp)
                &&& grid_fits(*resp)
                &&& final(out)@ == old(out)@ + reply_output(
                    region_in@.subrange(
                        resp.masterpiece_start as int,
                        resp.masterpiece_start + resp.masterpiece_size,
                    ),
                    resp.width as int,
                    resp.height as int,
                    region_in@.subrange(
                        resp.signature_start as int,
                        resp.signature_start + resp.signature_size,
                    ),
                )
            },
            Err(e) => {
                &&& !(status_ok && reply_in_bounds(*resp) && grid_fits(*resp))
                &&& final(out)@ == old(out)@
                &&& (e == Fatal::StatusNotOk <==> !status_ok)
                &&& (e == Fatal::ReplyOutOfBounds <==> status_ok && !reply_in_bounds(*resp))
                &&& (e == Fatal::GridBeyondMasterpiece <==> status_ok && reply_in_bounds(*resp)
                    && !grid_fits(*resp))
            },
        },
{
    match decode_reply(status_ok, resp, region_in) {
        Ok(reply) => {
            render_reply(&reply, out);
            Ok(())
        },
        Err(e) => Err(e),
    }
}

} // verus!
