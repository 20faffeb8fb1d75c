//! The framing of messages to and from a PHP worker: a four-byte
//! big-endian length, then that many bytes of JSON.

use vstd::prelude::*;

verus! {

/// The four big-endian bytes of a number below 2^32.
pub open spec fn be32(n: nat) -> Seq<u8> {
    seq![
        (n / 16777216 % 256) as u8,
        (n / 65536 % 256) as u8,
        (n / 256 % 256) as u8,
        (n % 256) as u8,
    ]
}

/// The number four big-endian bytes stand for.
pub open spec fn be32_value(b: Seq<u8>) -> nat {
    (b[0] * 16777216 + b[1] * 65536 + b[2] * 256 + b[3]) as nat
}

/// A framed message: the payload's length, taken modulo 2^32 as a `u32`
/// cast does, in four big-endian bytes, then the payload.
pub open spec fn framed(payload: Seq<u8>) -> Seq<u8> {
    be32(payload.len() % 4294967296) + payload
}

/// Frames a payload (see `framed`).
pub fn frame_message(payload: &[u8]) -> (r: Vec<u8>)
    ensures
        r@ == framed(payload@),
{
    let n: u64 = payload.len() as u64 % 4294967296u64;
    let mut out: Vec<u8> = Vec::new();
    out.push((n / 16777216 % 256) as u8);
    out.push((n / 65536 % 256) as u8);
    out.push((n / 256 % 256) as u8);
    out.push((n % 256) as u8);
    let m = payload.len();
    for i in 0..m
        invariant
            m == payload@.len(),
            n == payload@.len() % 4294967296,
            out@ == be32(n as nat) + payload@.take(i as int),
    {
        out.push(payload[i]);
        assert(payload@.take(i + 1) =~= payload@.take(i as int).push(payload@[i as int]));
    }
    assert(payload@.take(m as int) =~= payload@);
    out
}

/// The payload length a frame's four header bytes announce.
pub fn frame_length(header: &[u8]) -> (r: usize)
    requires
        header@.len() == 4,
    ensures
        r == be32_value(header@),
{
    let v: u64 = header[0] as u64 * 16777216 + header[1] as u64 * 65536 + header[2] as u64 * 256
        + header[3] as u64;
    assert(v <= 4294967295);
    v as usize
}

/// Reading a frame's header gives back the payload's length, for every
/// payload shorter than 2^32 bytes.
pub proof fn lemma_frame_length_read_back(payload: Seq<u8>)
    requires
        payload.len() < 4294967296,
    ensures
        be32_value(framed(payload).take(4)) == payload.len(),
        framed(payload).skip(4) == payload,
{
    let n = payload.len();
    let f = framed(payload);
    assert(f.take(4) =~= be32(n));
    assert(f.skip(4) =~= payload);
    let b = be32(n);
    assert(b[0] * 16777216 + b[1] * 65536 + b[2] * 256 + b[3] == n) by (nonlinear_arith)
        requires
            n < 4294967296,
            b[0] == (n / 16777216 % 256) as u8,
            b[1] == (n / 65536 % 256) as u8,
            b[2] == (n / 256 % 256) as u8,
            b[3] == (n % 256) as u8,
    {
        assert(n / 16777216 < 256);
        assert(n / 16777216 % 256 == n / 16777216);
        assert(n / 65536 == (n / 16777216) * 256 + n / 65536 % 256);
        assert(n / 256 == (n / 65536) * 256 + n / 256 % 256);
        assert(n == (n / 256) * 256 + n % 256);
    }
}

} // verus!
