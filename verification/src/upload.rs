use vstd::prelude::*;

use crate::chunks::bytes_len;
use crate::chunks::bytes_view;
use crate::seq_sum;

verus! {

/// `a + b`, saturating at `u64::MAX`.
pub open spec fn sat_add_u64(a: int, b: int) -> int {
    if a + b > u64::MAX as int {
        u64::MAX as int
    } else {
        a + b
    }
}

/// The number of bytes the sink counts for a body whose chunks have lengths
/// `lens`: chunks are consumed in order until the cumulative count reaches
/// `size` or the stream ends, whichever happens first.
pub open spec fn sink_received(size: int, lens: Seq<int>) -> int
    decreases lens.len(),
{
    if lens.len() == 0 {
        0
    } else if lens[0] >= size {
        lens[0]
    } else {
        lens[0] + sink_received(size - lens[0], lens.drop_first())
    }
}

/// Law: a body carrying at least `size` bytes always drives the sink to its
/// target — the count the sink stops at reaches `size`.
pub proof fn lemma_upload_reaches_target(size: int, lens: Seq<int>)
    requires
        forall|i: int| 0 <= i < lens.len() ==> #[trigger] lens[i] >= 0,
        seq_sum(lens) >= size,
    ensures
        sink_received(size, lens) >= size,
    decreases lens.len(),
{
    if lens.len() > 0 && lens[0] < size {
        let rest = lens.drop_first();
        assert forall|i: int| 0 <= i < rest.len() implies #[trigger] rest[i] >= 0 by {
            assert(rest[i] == lens[i + 1]);
        }
        lemma_upload_reaches_target(size - lens[0], rest);
    }
}

/// Law: a body carrying fewer than `size` bytes is consumed whole — the
/// sink counts exactly the bytes that arrived, and the upload still ends
/// normally when the stream does.
pub proof fn lemma_upload_short_body(size: int, lens: Seq<int>)
    requires
        forall|i: int| 0 <= i < lens.len() ==> #[trigger] lens[i] >= 0,
        seq_sum(lens) < size,
    ensures
        sink_received(size, lens) == seq_sum(lens),
    decreases lens.len(),
{
    if lens.len() > 0 {
        let rest = lens.drop_first();
        assert forall|i: int| 0 <= i < rest.len() implies #[trigger] rest[i] >= 0 by {
            assert(rest[i] == lens[i + 1]);
        }
        lemma_upload_short_body(size - lens[0], rest);
    }
}

/// An upload in progress: `received` bytes of the `size`-byte target have
/// arrived and been discarded.
pub struct Upload {
    /// Number of body bytes after which the sink stops reading.
    pub size: u64,
    /// Number of body bytes received so far (saturating at `u64::MAX`).
    pub received: u64,
}

impl Upload {
    /// The target has been met: the sink reads no further chunk.
    pub open spec fn done(self) -> bool {
        self.received >= self.size
    }

    /// Starts an upload that expects `size` bytes.
    pub fn new(size: u64) -> (u: Upload)
        requires
            size > 0,
        ensures
            u.size == size,
            u.received == 0,
            !u.done(),
    {
        Upload { size, received: 0 }
    }

    /// Counts one inbound chunk, whose contents are discarded, and reports
    /// whether the target is now met — if it is, the caller stops reading
    /// even when more data remains on the wire.
    pub fn push_chunk(&mut self, chunk: &bytes::Bytes) -> (done: bool)
        ensures
            final(self).size == old(self).size,
            final(self).received == sat_add_u64(old(self).received as int, bytes_view(*chunk).len() as int),
            done == final(self).done(),
    {
        let len_usize: usize = bytes_len(chunk);
        let len: u64 = len_usize as u64;
        if self.received > u64::MAX - len {
            self.received = u64::MAX;
        } else {
            self.received = self.received + len;
        }
        self.received >= self.size
    }

    /// The status reported once reading has stopped — because the target
    /// was met or because the stream ended first, even short of the target:
    /// "no content", never an error.
    pub fn response_status(&self) -> (s: u16)
        ensures
            s == 204,
    {
        204
    }
}

} // verus!
