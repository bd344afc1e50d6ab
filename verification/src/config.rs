use vstd::prelude::*;

verus! {

/// Largest flow-control window HTTP/2 permits (2^31 - 1 bytes).
pub const MAX_WINDOW: u32 = 0x7FFF_FFFF;

/// Smallest maximum frame size HTTP/2 permits (2^14 bytes).
pub const MIN_FRAME_SIZE: u32 = 0x4000;

/// Largest maximum frame size HTTP/2 permits (2^24 - 1 bytes).
pub const MAX_FRAME_SIZE: u32 = 0xFF_FFFF;

/// HTTP/2 transport tuning applied to every accepted connection.
///
/// The windows and frame size are deliberately large so that flow control
/// never becomes the throughput ceiling while benchmarking.
pub struct Http2Config {
    /// Initial stream-level flow-control window, in bytes.
    pub initial_stream_window: u32,
    /// Initial connection-level flow-control window, in bytes.
    pub initial_connection_window: u32,
    /// Maximum HTTP/2 frame size, in bytes.
    pub max_frame_size: u32,
}

impl Http2Config {
    /// The values stay inside the bounds the HTTP/2 protocol allows.
    pub open spec fn wf(self) -> bool {
        &&& self.initial_stream_window <= MAX_WINDOW
        &&& self.initial_connection_window <= MAX_WINDOW
        &&& MIN_FRAME_SIZE <= self.max_frame_size <= MAX_FRAME_SIZE
    }

    /// The tuning used for benchmarking: 1 GiB windows and the protocol's
    /// largest frame size.
    pub fn benchmark() -> (c: Http2Config)
        ensures
            c.wf(),
            c.initial_stream_window == 0x4000_0000u32,
            c.initial_connection_window == 0x4000_0000u32,
            c.max_frame_size == MAX_FRAME_SIZE,
    {
        Http2Config {
            initial_stream_window: 0x4000_0000,
            initial_connection_window: 0x4000_0000,
            max_frame_size: MAX_FRAME_SIZE,
        }
    }
}

/// The ALPN protocol list offered during the TLS handshake: HTTP/2 only,
/// so a peer that cannot speak it gets no HTTP/1.1 fallback.
pub fn alpn_protocols() -> (v: Vec<Vec<u8>>)
    ensures
        v@.len() == 1,
        v@[0]@ == seq![104u8, 50u8],
{
    let mut p: Vec<u8> = Vec::new();
    p.push(104u8);
    p.push(50u8);
    let mut v: Vec<Vec<u8>> = Vec::new();
    v.push(p);
    proof {
        assert(v@[0]@ =~= seq![104u8, 50u8]);
    }
    v
}

} // verus!
