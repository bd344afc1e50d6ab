//! Verified core of a small HTTP/2-over-TLS benchmarking server.
//!
//! The server answers `GET /api/{size}` with a stream of exactly `size` zero
//! bytes, delivered in bounded chunks cut from one shared read-only buffer,
//! and `PUT /api/{size}` by discarding the request body until `size` bytes
//! have arrived or the stream ends. This crate holds the per-request logic:
//! size validation, the chunking plan for downloads, the byte-counting sink
//! for uploads, and the transport tuning values. The surrounding process
//! (sockets, TLS, HTTP/2 framing, routing) drives these from unverified code.

use vstd::prelude::*;

pub mod api;
pub mod chunks;
pub mod config;
pub mod download;
pub mod upload;

verus! {

/// Size in bytes of each zero-filled chunk used when streaming a download
/// (1 MiB).
pub const CHUNK_SIZE: usize = 0x10_0000;

/// The sum of a sequence of integers.
pub open spec fn seq_sum(s: Seq<int>) -> int
    decreases s.len(),
{
    if s.len() == 0 {
        0
    } else {
        s[0] + seq_sum(s.drop_first())
    }
}

} // verus!
