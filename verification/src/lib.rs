//! Serial front end of a two-component rendering pipeline: collects a line of
//! printable text from a serial stream, exchanges it with a rendering peer
//! through two fixed-size shared memory regions, and formats the returned
//! pixel grid and signature for the serial line.
//!
//! Everything that decides or computes lives here and is verified; the
//! surrounding process performs the actual serial reads and writes and the
//! blocking call to the peer, feeding the results back in as plain values.

use vstd::prelude::*;

pub mod assembler;
pub mod laws;
pub mod output;
pub mod protocol;
pub mod render;
pub mod subject;

verus! {

/// Capacity in bytes of each shared memory region.
pub const REGION_SIZE: usize = 0x4000;

/// Longest subject line accepted before an automatic flush.
pub const MAX_SUBJECT_LEN: usize = 16;

} // verus!
