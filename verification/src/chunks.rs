use vstd::prelude::*;

verus! {

/// Declares `bytes::Bytes` so it can stand in signatures of verified code.
/// A value is opaque; what it holds is tracked through [`bytes_view`].
#[verifier::external_type_specification]
#[verifier::external_body]
pub struct ExBytes(bytes::Bytes);

/// The bytes a `bytes::Bytes` buffer holds, in order.
pub uninterp spec fn bytes_view(b: bytes::Bytes) -> Seq<u8>;

/// True when every byte of `s` is zero.
pub open spec fn all_zeros(s: Seq<u8>) -> bool {
    forall|i: int| 0 <= i < s.len() ==> s[i] == 0
}

/// Relies on `<bytes::Bytes as From<Vec<u8>>>::from`: the buffer holds
/// exactly the vector's bytes.
#[verifier::external_body]
fn bytes_from_vec(v: Vec<u8>) -> (b: bytes::Bytes)
    ensures
        bytes_view(b) == v@,
{
    bytes::Bytes::from(v)
}

/// Relies on `bytes::Bytes::len`: the number of bytes the buffer holds.
#[verifier::external_body]
pub(crate) fn bytes_len(b: &bytes::Bytes) -> (n: usize)
    ensures
        n == bytes_view(*b).len(),
{
    b.len()
}

/// Relies on `bytes::Bytes::slice`: `b.slice(0..n)` is the length-`n`
/// prefix of `b`, shared without copying. It panics unless `n <= b.len()`,
/// which `requires` rules out.
#[verifier::external_body]
pub(crate) fn bytes_prefix(b: &bytes::Bytes, n: usize) -> (r: bytes::Bytes)
    requires
        n <= bytes_view(*b).len(),
    ensures
        bytes_view(r) == bytes_view(*b).subrange(0, n as int),
{
    b.slice(0..n)
}

/// Builds the process-wide read-only download buffer: `CHUNK_SIZE` zero
/// bytes, allocated once and shared by reference across all requests.
pub fn zero_buffer() -> (b: bytes::Bytes)
    ensures
        bytes_view(b).len() == crate::CHUNK_SIZE,
        all_zeros(bytes_view(b)),
{
    let mut v: Vec<u8> = Vec::new();
    let mut i: usize = 0;
    while i < crate::CHUNK_SIZE
        invariant
            i <= crate::CHUNK_SIZE,
            v@.len() == i,
            all_zeros(v@),
        decreases crate::CHUNK_SIZE - i,
    {
        v.push(0u8);
        i = i + 1;
    }
    bytes_from_vec(v)
}

} // verus!
