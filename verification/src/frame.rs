//! The wire format shared by clients and servers: a four-byte big-endian length, then the
//! payload bytes.
use vstd::prelude::*;

verus! {

/// The number that four bytes spell in big-endian order.
pub open spec fn be_value(b0: u8, b1: u8, b2: u8, b3: u8) -> int {
    b0 as int * 16777216 + b1 as int * 65536 + b2 as int * 256 + b3 as int
}

/// The four big-endian bytes of `n`, as `u32::to_be_bytes` gives them.
pub open spec fn be_bytes(n: u32) -> Seq<u8> {
    seq![
        (n / 16777216) as u8,
        ((n / 65536) % 256) as u8,
        ((n / 256) % 256) as u8,
        (n % 256) as u8,
    ]
}

/// The length that a frame's header announces for a payload of `len` bytes: the length
/// taken modulo 2^32, as `len as u32` truncates it.
pub open spec fn announced_len(len: nat) -> u32 {
    (len % 4294967296) as u32
}

/// The bytes sent for `payload`.
pub open spec fn framed(payload: Seq<u8>) -> Seq<u8> {
    be_bytes(announced_len(payload.len())) + payload
}

/// The payload that `bytes` carry, when they hold at least a header and the bytes it
/// announces; bytes after the announced payload are left over.
pub open spec fn unframed(bytes: Seq<u8>) -> Option<Seq<u8>> {
    if bytes.len() < 4 {
        None
    } else {
        let n = be_value(bytes[0], bytes[1], bytes[2], bytes[3]);
        if bytes.len() < 4 + n {
            None
        } else {
            Some(bytes.subrange(4, 4 + n))
        }
    }
}

pub proof fn lemma_be_roundtrip(n: u32)
    ensures
        be_value(be_bytes(n)[0], be_bytes(n)[1], be_bytes(n)[2], be_bytes(n)[3]) == n,
{
    let b = be_bytes(n);
    assert(b[0] == n / 16777216);
    assert(b[1] == (n / 65536) % 256);
    assert(b[2] == (n / 256) % 256);
    assert(b[3] == n % 256);
    assert(be_value(b[0], b[1], b[2], b[3]) == n) by (nonlinear_arith)
        requires
            b[0] == n / 16777216,
            b[1] == (n / 65536) % 256,
            b[2] == (n / 256) % 256,
            b[3] == n % 256,
            0 <= n < 4294967296,
    ;
}

/// The payload length that a frame header announces (`u32::from_be_bytes`).
pub fn frame_len(header: [u8; 4]) -> (len: u32)
    ensures
        len == be_value(header[0], header[1], header[2], header[3]),
{
    let a: u32 = header[0] as u32;
    let b: u32 = header[1] as u32;
    let c: u32 = header[2] as u32;
    let d: u32 = header[3] as u32;
    a * 16777216 + b * 65536 + c * 256 + d
}

/// The header announcing a payload of `len` bytes (`u32::to_be_bytes`).
pub fn header_bytes(len: u32) -> (h: [u8; 4])
    ensures
        h@ == be_bytes(len),
{
    let b0: u8 = (len / 16777216) as u8;
    let b1: u8 = ((len / 65536) % 256) as u8;
    let b2: u8 = ((len / 256) % 256) as u8;
    let b3: u8 = (len % 256) as u8;
    let h = [b0, b1, b2, b3];
    assert(h@ =~= be_bytes(len));
    h
}

/// Frames `payload` for sending: its length as four big-endian bytes (taken modulo 2^32),
/// then the payload.
pub fn encode_frame(payload: &Vec<u8>) -> (out: Vec<u8>)
    ensures
        out@ == framed(payload@),
{
    let len64: u64 = payload.len() as u64;
    let len: u32 = (len64 % 4294967296) as u32;
    let h = header_bytes(len);
    let mut out: Vec<u8> = Vec::new();
    out.push(h[0]);
    out.push(h[1]);
    out.push(h[2]);
    out.push(h[3]);
    let mut i: usize = 0;
    while i < payload.len()
        invariant
            i <= payload.len(),
            out@ == be_bytes(len) + payload@.subrange(0, i as int),
            len == announced_len(payload@.len()),
        decreases payload.len() - i,
    {
        out.push(payload[i]);
        i = i + 1;
        assert(out@ =~= be_bytes(len) + payload@.subrange(0, i as int));
    }
    assert(payload@.subrange(0, i as int) =~= payload@);
    out
}

/// The payload carried by the frame at the start of `bytes`, or `None` when `bytes` are
/// too short to hold the header or the bytes it announces.
pub fn decode_frame(bytes: &Vec<u8>) -> (r: Option<Vec<u8>>)
    ensures
        match r {
            Some(p) => unframed(bytes@) == Some(p@),
            None => unframed(bytes@) is None,
        },
{
    if bytes.len() < 4 {
        return None;
    }
    let n: u32 = frame_len([bytes[0], bytes[1], bytes[2], bytes[3]]);
    let avail: usize = bytes.len() - 4;
    if (avail as u64) < (n as u64) {
        return None;
    }
    let n: usize = n as usize;
    let mut out: Vec<u8> = Vec::new();
    let mut i: usize = 0;
    while i < n
        invariant
            n <= bytes.len() - 4,
            n == be_value(bytes@[0], bytes@[1], bytes@[2], bytes@[3]),
            i <= n,
            out@ == bytes@.subrange(4, 4 + i),
        decreases n - i,
    {
        out.push(bytes[4 + i]);
        i = i + 1;
        assert(out@ =~= bytes@.subrange(4, 4 + i));
    }
    Some(out)
}

/// Reading back a frame gives the payload that was framed, whenever the payload's length
/// fits the four-byte header; bytes that follow the frame do not change what is read.
pub proof fn law_frame_roundtrip(payload: Seq<u8>, rest: Seq<u8>)
    requires
        payload.len() < 4294967296,
    ensures
        unframed(framed(payload) + rest) == Some(payload),
{
    let n = announced_len(payload.len());
    assert(n == payload.len());
    lemma_be_roundtrip(n);
    let b = framed(payload) + rest;
    assert(b[0] == be_bytes(n)[0] && b[1] == be_bytes(n)[1] && b[2] == be_bytes(n)[2] && b[3] == be_bytes(n)[3]);
    assert(b.subrange(4, 4 + payload.len() as int) =~= payload);
}

} // verus!
