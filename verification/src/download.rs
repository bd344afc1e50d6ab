use vstd::prelude::*;

use crate::chunks::all_zeros;
use crate::chunks::bytes_prefix;
use crate::chunks::bytes_view;
use crate::CHUNK_SIZE;
use crate::seq_sum;

verus! {

/// `n` zero bytes.
pub open spec fn zeros_seq(n: int) -> Seq<u8> {
    Seq::new(n as nat, |i: int| 0u8)
}

/// Length of the next chunk when `rem` body bytes are still owed: the final
/// chunk is truncated to the remaining count, every other chunk is
/// `CHUNK_SIZE` long.
pub open spec fn chunk_len_of(rem: int) -> int {
    if rem <= CHUNK_SIZE as int {
        rem
    } else {
        CHUNK_SIZE as int
    }
}

/// The lengths of the chunks a download of `n` bytes emits, in order.
pub open spec fn chunk_plan(n: int) -> Seq<int>
    decreases n,
{
    if n <= 0 {
        Seq::empty()
    } else {
        seq![chunk_len_of(n)] + chunk_plan(n - chunk_len_of(n))
    }
}

/// The complete body of a download of `n` bytes: the chunks' contents,
/// concatenated in order.
pub open spec fn download_body(n: int) -> Seq<u8>
    decreases n,
{
    if n <= 0 {
        Seq::empty()
    } else {
        zeros_seq(chunk_len_of(n)) + download_body(n - chunk_len_of(n))
    }
}

/// Law: a download of `n` bytes emits chunks whose lengths sum to exactly
/// `n`, and every chunk is non-empty and at most `CHUNK_SIZE` long.
pub proof fn lemma_chunk_plan_exact(n: int)
    requires
        0 <= n,
    ensures
        seq_sum(chunk_plan(n)) == n,
        forall|i: int| 0 <= i < chunk_plan(n).len() ==> 0 < #[trigger] chunk_plan(n)[i] <= CHUNK_SIZE as int,
    decreases n,
{
    if n > 0 {
        let head = chunk_len_of(n);
        lemma_chunk_plan_exact(n - head);
        assert(chunk_plan(n).drop_first() =~= chunk_plan(n - head));
        assert(chunk_plan(n)[0] == head);
        assert forall|i: int| 0 <= i < chunk_plan(n).len() implies 0 < #[trigger] chunk_plan(n)[i] <= CHUNK_SIZE as int by {
            if i > 0 {
                assert(chunk_plan(n)[i] == chunk_plan(n - head)[i - 1]);
            }
        }
    }
}

/// Law: when `0 < n <= CHUNK_SIZE`, the download is one single chunk of
/// exactly `n` bytes — a request smaller than the chunk unit gets a chunk
/// truncated to the request, never a padded one.
pub proof fn lemma_small_download_single_chunk(n: int)
    requires
        0 < n <= CHUNK_SIZE as int,
    ensures
        chunk_plan(n) =~= seq![n],
{
    assert(chunk_plan(n - chunk_len_of(n)) =~= Seq::<int>::empty());
}

/// Law: the complete body of a download of `n` bytes is exactly `n` zero
/// bytes, wherever the chunk boundaries fall. The body is a function of `n`
/// alone, so concurrent downloads cannot disturb one another's contents.
pub proof fn lemma_download_body_zeros(n: int)
    requires
        0 <= n,
    ensures
        download_body(n) =~= zeros_seq(n),
    decreases n,
{
    if n > 0 {
        let head = chunk_len_of(n);
        lemma_download_body_zeros(n - head);
        assert(zeros_seq(head) + zeros_seq(n - head) =~= zeros_seq(n));
    }
}

/// A download in progress: `sent` of the `size` requested body bytes have
/// already been handed to the transport.
pub struct Download {
    /// Total number of bytes the response body must contain.
    pub size: u64,
    /// Number of body bytes emitted so far.
    pub sent: u64,
}

impl Download {
    /// A download never emits more than it was asked for.
    pub open spec fn wf(self) -> bool {
        self.sent <= self.size
    }

    /// Body bytes still owed to the client.
    pub open spec fn remaining(self) -> int {
        self.size - self.sent
    }

    /// Starts a download of `size` bytes; nothing has been emitted yet.
    pub fn new(size: u64) -> (d: Download)
        requires
            size > 0,
        ensures
            d.wf(),
            d.size == size,
            d.sent == 0,
    {
        Download { size, sent: 0 }
    }

    /// One pull by the transport. Returns the next chunk — a prefix of the
    /// shared zero buffer, `min(remaining, CHUNK_SIZE)` bytes long — or
    /// `None` once the body is complete, which ends the stream.
    pub fn next_chunk(&mut self, zeros: &bytes::Bytes) -> (r: Option<bytes::Bytes>)
        requires
            old(self).wf(),
            bytes_view(*zeros).len() == CHUNK_SIZE,
            all_zeros(bytes_view(*zeros)),
        ensures
            final(self).wf(),
            final(self).size == old(self).size,
            old(self).remaining() == 0 ==> r is None && final(self).sent == old(self).sent,
            old(self).remaining() > 0 ==> ({
                &&& r matches Some(chunk)
                &&& bytes_view(chunk) == zeros_seq(chunk_len_of(old(self).remaining()))
                &&& final(self).sent == old(self).sent + chunk_len_of(old(self).remaining())
                &&& download_body(old(self).remaining()) == bytes_view(chunk) + download_body(final(self).remaining())
            }),
    {
        if self.sent == self.size {
            return None;
        }
        let remaining: u64 = self.size - self.sent;
        let len: usize = if remaining < CHUNK_SIZE as u64 {
            remaining as usize
        } else {
            CHUNK_SIZE
        };
        let chunk = bytes_prefix(zeros, len);
        proof {
            assert(bytes_view(chunk) =~= zeros_seq(len as int));
        }
        self.sent = self.sent + len as u64;
        Some(chunk)
    }
}

} // verus!
