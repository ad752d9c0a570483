//! The request/response protocol client: serializes a draft into the out
//! region, and validates and decodes the renderer's reply out of the in
//! region. Every offset/size pair is checked against `REGION_SIZE` before any
//! copy; a violation is a fatal condition, never an out-of-bounds access.

use vstd::prelude::*;

use crate::REGION_SIZE;

verus! {

/// The pixel payload and dimensions produced for a subject by the rendering
/// logic, as handed to the protocol client.
pub struct Draft {
    pub pixel_data: Vec<u8>,
    pub width: usize,
    pub height: usize,
}

/// The call payload sent to the renderer: where in the out region the draft
/// pixels live, and their dimensions.
pub struct Request {
    pub height: usize,
    pub width: usize,
    pub draft_start: usize,
    pub draft_size: usize,
}

/// The call reply received from the renderer: where in the in region the
/// rendered pixels and the signature live, and the pixel dimensions.
pub struct Response {
    pub height: usize,
    pub width: usize,
    pub masterpiece_start: usize,
    pub masterpiece_size: usize,
    pub signature_start: usize,
    pub signature_size: usize,
}

/// An unrecoverable condition: a contract breach between the two components.
/// The process halts on these rather than guessing at recovery.
#[derive(Clone, Copy, PartialEq, Eq, Structural, Debug)]
pub enum Fatal {
    /// The draft payload does not fit in the out region.
    DraftTooLarge,
    /// The renderer's call reply carried a non-success status label.
    StatusNotOk,
    /// A reply offset/size pair points outside the in region.
    ReplyOutOfBounds,
    /// The reply's grid dimensions call for more pixel bytes than it delivered.
    GridBeyondMasterpiece,
    /// A notification arrived on an endpoint that never notifies.
    UnexpectedChannel,
}

/// The closed set of communication endpoints this component is wired to.
#[derive(Clone, Copy, PartialEq, Eq, Structural, Debug)]
pub enum Endpoint {
    /// The serial driver; notifies when input bytes are available.
    SerialDriver,
    /// The rendering peer; only ever answers calls, never notifies.
    Talent,
}

/// Decides what a notification means: only the serial driver ever notifies,
/// so input processing may proceed exactly then. Anything else is a
/// programming-contract violation.
pub fn classify_notification(ep: Endpoint) -> (r: Result<(), Fatal>)
    ensures
        ep is SerialDriver <==> r is Ok,
        !(ep is SerialDriver) ==> r == Err::<(), Fatal>(Fatal::UnexpectedChannel),
{
    match ep {
        Endpoint::SerialDriver => Ok(()),
        Endpoint::Talent => Err(Fatal::UnexpectedChannel),
    }
}

/// Serializes a draft for the renderer: copies its pixel payload to the
/// front of the out region and describes it in a request. A payload larger
/// than the region is a fatal condition and writes nothing.
pub fn build_request(draft: &Draft, region_out: &mut Vec<u8>) -> (r: Result<Request, Fatal>)
    requires
        old(region_out)@.len() == REGION_SIZE,
    ensures
        final(region_out)@.len() == REGION_SIZE,
        match r {
            Ok(req) => {
                &&& draft.pixel_data@.len() <= REGION_SIZE
                &&& req.height == draft.height
                &&& req.width == draft.width
                &&& req.draft_start == 0
                &&& req.draft_size == draft.pixel_data@.len()
                &&& final(region_out)@ == draft.pixel_data@ + old(region_out)@.skip(
                    draft.pixel_data@.len() as int,
                )
            },
            Err(e) => {
                &&& e == Fatal::DraftTooLarge
                &&& draft.pixel_data@.len() > REGION_SIZE
                &&& final(region_out)@ == old(region_out)@
            },
        },
{
    let size = draft.pixel_data.len();
    if size > REGION_SIZE {
        return Err(Fatal::DraftTooLarge);
    }
    let mut i: usize = 0;
    while i < size
        invariant
            i <= size,
            size == draft.pixel_data@.len() <= REGION_SIZE,
            region_out@.len() == REGION_SIZE,
            forall|k: int| 0 <= k < i ==> region_out@[k] == draft.pixel_data@[k],
            forall|k: int| i <= k < REGION_SIZE ==> region_out@[k] == old(region_out)@[k],
        decreases size - i,
    {
        region_out[i] = draft.pixel_data[i];
        i = i + 1;
    }
    assert(region_out@ =~= draft.pixel_data@ + old(region_out)@.skip(size as int));
    Ok(Request { height: draft.height, width: draft.width, draft_start: 0, draft_size: size })
}

/// The reply's referenced intervals both lie inside the in region.
pub open spec fn reply_in_bounds(resp: Response) -> bool {
    &&& resp.masterpiece_start + resp.masterpiece_size <= REGION_SIZE
    &&& resp.signature_start + resp.signature_size <= REGION_SIZE
}

/// The reply delivered at least as many pixel bytes as its grid dimensions
/// will read.
pub open spec fn grid_fits(resp: Response) -> bool {
    resp.width * resp.height <= resp.masterpiece_size
}

/// A decoded reply: locally-owned copies of the rendered pixels and the
/// signature, with the grid dimensions.
pub struct Reply {
    pub pixels: Vec<u8>,
    pub width: usize,
    pub height: usize,
    pub signature: Vec<u8>,
}

impl Reply {
    /// The grid walk `row * width + col` stays inside the pixel buffer.
    pub open spec fn wf(&self) -> bool {
        self.width * self.height <= self.pixels@.len()
    }
}

/// Copies `len` bytes starting at `start` out of a region into a fresh,
/// locally-owned buffer.
pub(crate) fn copy_range(src: &Vec<u8>, start: usize, len: usize) -> (r: Vec<u8>)
    requires
        start + len <= src@.len(),
    ensures
        r@ == src@.subrange(start as int, start as int + len as int),
{
    let mut r: Vec<u8> = Vec::new();
    let n: usize = src.len();
    let mut j: usize = 0;
    while j < len
        invariant
            j <= len,
            n == src@.len(),
            start + len <= src@.len(),
            r@.len() == j,
            forall|k: int| 0 <= k < j ==> r@[k] == src@[start + k],
        decreases len - j,
    {
        r.push(src[start + j]);
        j = j + 1;
    }
    assert(r@ =~= src@.subrange(start as int, start as int + len as int));
    r
}

/// Validates and decodes the renderer's call reply. The status label must be
/// success, both referenced intervals must lie inside the in region, and the
/// grid dimensions must not read past the pixel payload; each violation is a
/// distinct fatal condition and nothing is copied. On success, exactly
/// `masterpiece_size` pixel bytes and `signature_size` signature bytes are
/// copied out of the in region, never more, never fewer.
pub fn decode_reply(status_ok: bool, resp: &Response, region_in: &Vec<u8>) -> (r: Result<
    Reply,
    Fatal,
>)
    requires
        region_in@.len() == REGION_SIZE,
    ensures
        match r {
            Ok(reply) => {
                &&& status_ok
                &&& reply_in_bounds(*resp)
                &&& grid_fits(*resp)
                &&& reply.width == resp.width
                &&& reply.height == resp.height
                &&& reply.pixels@ == region_in@.subrange(
                    resp.masterpiece_start as int,
                    resp.masterpiece_start + resp.masterpiece_size,
                )
                &&& reply.signature@ == region_in@.subrange(
                    resp.signature_start as int,
                    resp.signature_start + resp.signature_size,
                )
                &&& reply.wf()
            },
            Err(e) => {
                &&& !(status_ok && reply_in_bounds(*resp) && grid_fits(*resp))
                &&& (e == Fatal::StatusNotOk <==> !status_ok)
                &&& (e == Fatal::ReplyOutOfBounds <==> status_ok && !reply_in_bounds(*resp))
                &&& (e == Fatal::GridBeyondMasterpiece <==> status_ok && reply_in_bounds(*resp)
                    && !grid_fits(*resp))
            },
        },
{
    if !status_ok {
        return Err(Fatal::StatusNotOk);
    }
    if !(resp.masterpiece_start <= REGION_SIZE
        && resp.masterpiece_size <= REGION_SIZE - resp.masterpiece_start
        && resp.signature_start <= REGION_SIZE
        && resp.signature_size <= REGION_SIZE - resp.signature_start) {
        return Err(Fatal::ReplyOutOfBounds);
    }
    let w = resp.width as u128;
    let h = resp.height as u128;
    proof {
        assert(w * h <= 0xFFFFFFFF_FFFFFFFF_FFFFFFFF_FFFFFFFFu128) by (nonlinear_arith)
            requires
                w <= 0xFFFF_FFFF_FFFF_FFFFu128,
                h <= 0xFFFF_FFFF_FFFF_FFFFu128,
        ;
    }
    if !(w * h <= resp.masterpiece_size as u128) {
        return Err(Fatal::GridBeyondMasterpiece);
    }
    let pixels = copy_range(region_in, resp.masterpiece_start, resp.masterpiece_size);
    let signature = copy_range(region_in, resp.signature_start, resp.signature_size);
    Ok(Reply { pixels, width: resp.width, height: resp.height, signature })
}

} // verus!
