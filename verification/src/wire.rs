//! Length-prefixed framing of serialized messages: a 4-byte big-endian length,
//! then the payload.

use crate::digest::copy_bytes;
use vstd::prelude::*;

verus! {

/// The 4-byte big-endian encoding of `n`.
pub open spec fn be32(n: u32) -> Seq<u8> {
    seq![
        (n / 0x1000000) as u8,
        ((n / 0x10000) % 0x100) as u8,
        ((n / 0x100) % 0x100) as u8,
        (n % 0x100) as u8,
    ]
}

/// The number that four big-endian bytes encode.
pub open spec fn from_be32(b: Seq<u8>) -> nat
    recommends
        b.len() >= 4,
{
    (b[0] * 0x1000000 + b[1] * 0x10000 + b[2] * 0x100 + b[3]) as nat
}

/// A frame: the payload's length, taken modulo 2^32, then the payload.
pub open spec fn framed(payload: Seq<u8>) -> Seq<u8> {
    be32(payload.len() as u32) + payload
}

/// Why a byte string is not a frame.
#[derive(Debug, Clone, Copy, PartialEq, Eq, Structural)]
pub enum FrameError {
    /// Fewer than the four bytes of the length
    TooShort,
    /// Fewer payload bytes than the length announces
    Incomplete,
}

/// The payload a byte string frames: the bytes after the length prefix, as many
/// as it announces; bytes beyond them are ignored.
pub open spec fn unframed(data: Seq<u8>) -> Result<Seq<u8>, FrameError> {
    if data.len() < 4 {
        Err(FrameError::TooShort)
    } else if data.len() < 4 + from_be32(data) {
        Err(FrameError::Incomplete)
    } else {
        Ok(data.subrange(4, 4 + from_be32(data) as int))
    }
}

/// Prefixes a payload with its length.
pub fn frame_payload(payload: &[u8]) -> (out: Vec<u8>)
    ensures
        out@ == framed(payload@),
{
    let len = #[verifier::truncate] (payload.len() as u32);
    let mut out: Vec<u8> = Vec::new();
    out.push((len / 0x1000000) as u8);
    out.push(((len / 0x10000) % 0x100) as u8);
    out.push(((len / 0x100) % 0x100) as u8);
    out.push((len % 0x100) as u8);
    let mut i: usize = 0;
    while i < payload.len()
        invariant
            i <= payload@.len(),
            len == payload@.len() as u32,
            out@ == be32(len) + payload@.take(i as int),
        decreases payload@.len() - i,
    {
        out.push(payload[i]);
        proof {
            assert(payload@.take(i as int).push(payload@[i as int]) =~= payload@.take(i + 1));
            assert(be32(len) + payload@.take(i + 1) =~= (be32(len) + payload@.take(i as int)).push(
                payload@[i as int],
            ));
        }
        i = i + 1;
    }
    proof {
        assert(payload@.take(payload@.len() as int) =~= payload@);
    }
    out
}

/// Extracts the payload of a frame.
pub fn unframe(data: &[u8]) -> (r: Result<Vec<u8>, FrameError>)
    ensures
        match (r, unframed(data@)) {
            (Ok(p), Ok(q)) => p@ == q,
            (Err(e), Err(f)) => e == f,
            _ => false,
        },
{
    if data.len() < 4 {
        return Err(FrameError::TooShort);
    }
    let n: u64 = data[0] as u64 * 0x1000000 + data[1] as u64 * 0x10000 + data[2] as u64 * 0x100
        + data[3] as u64;
    let avail: u64 = (data.len() - 4) as u64;
    if avail < n {
        return Err(FrameError::Incomplete);
    }
    let end = 4 + n as usize;
    let payload = vstd::slice::slice_subrange(data, 4, end);
    Ok(copy_bytes(payload))
}

/// Framing and unframing are inverse: the payload of a frame is the payload that
/// was framed, for every payload whose length fits in 32 bits.
pub proof fn law_unframe_frame(payload: Seq<u8>)
    requires
        payload.len() <= u32::MAX,
    ensures
        unframed(framed(payload)) == Ok::<Seq<u8>, FrameError>(payload),
{
    let n = payload.len() as u32;
    let f = framed(payload);
    assert(f[0] == (n / 0x1000000) as u8);
    assert(from_be32(f) == n) by (nonlinear_arith)
        requires
            f[0] == (n / 0x1000000) as u8,
            f[1] == ((n / 0x10000) % 0x100) as u8,
            f[2] == ((n / 0x100) % 0x100) as u8,
            f[3] == (n % 0x100) as u8,
            from_be32(f) == (f[0] * 0x1000000 + f[1] * 0x10000 + f[2] * 0x100 + f[3]) as nat,
            n <= u32::MAX,
    ;
    assert(f.subrange(4, 4 + n as int) =~= payload);
}

} // verus!
