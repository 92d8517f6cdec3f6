//! Length-prefixed framing: a frame is the payload's length as a
//! little-endian `u32`, then the payload. A receiver refuses a declared
//! length above `MAX_FRAME_LEN` before it takes any payload bytes.
use vstd::prelude::*;

use crate::wire::{from_le32, get_u32, le32, lemma_take_u32, put_raw, put_u32};

verus! {

/// Largest payload a frame may declare, in bytes (1 MiB).
pub const MAX_FRAME_LEN: usize = 1048576;

/// Bytes in a frame's length prefix.
pub const FRAME_HEADER_LEN: usize = 4;

#[derive(Debug, Clone, Copy, PartialEq, Eq, Structural)]
pub enum FrameError {
    /// The declared (or the given) payload length exceeds `MAX_FRAME_LEN`.
    SizeExceeded,
    /// The input ends before the frame does.
    Truncated,
}

/// The frame that carries `payload`.
pub open spec fn frame_of(payload: Seq<u8>) -> Seq<u8> {
    le32(payload.len() as u32) + payload
}

/// Frames `payload`; a payload longer than `MAX_FRAME_LEN` is refused, as
/// the receiving side would refuse it.
pub fn encode_frame(payload: &[u8]) -> (r: Result<Vec<u8>, FrameError>)
    ensures
        r matches Ok(v) ==> payload@.len() <= MAX_FRAME_LEN && v@ == frame_of(payload@),
        r matches Err(e) ==> e == FrameError::SizeExceeded && payload@.len() > MAX_FRAME_LEN,
{
    if payload.len() > MAX_FRAME_LEN {
        return Err(FrameError::SizeExceeded);
    }
    let mut out: Vec<u8> = Vec::new();
    put_u32(&mut out, payload.len() as u32);
    put_raw(&mut out, payload);
    assert(out@ =~= frame_of(payload@));
    Ok(out)
}

/// Reads the payload length from a frame's 4-byte prefix, refusing a
/// length above `MAX_FRAME_LEN`.
pub fn frame_length(header: &[u8]) -> (r: Result<usize, FrameError>)
    requires
        header@.len() == FRAME_HEADER_LEN,
    ensures
        ({
            let n = from_le32(header@[0], header@[1], header@[2], header@[3]);
            &&& r matches Ok(len) ==> len == n && len <= MAX_FRAME_LEN
            &&& r matches Err(e) ==> e == FrameError::SizeExceeded && n > MAX_FRAME_LEN
        }),
{
    let n = (header[0] as u32) | ((header[1] as u32) << 8u32) | ((header[2] as u32) << 16u32)
        | ((header[3] as u32) << 24u32);
    if n as usize > MAX_FRAME_LEN {
        Err(FrameError::SizeExceeded)
    } else {
        Ok(n as usize)
    }
}

/// Takes one frame from the front of `buf`: its payload and the number of
/// bytes it took. The declared length is checked against `MAX_FRAME_LEN`
/// before any payload byte is copied.
pub fn decode_frame(buf: &[u8]) -> (r: Result<(Vec<u8>, usize), FrameError>)
    ensures
        buf@.len() < FRAME_HEADER_LEN ==> r == Err::<(Vec<u8>, usize), FrameError>(
            FrameError::Truncated,
        ),
        buf@.len() >= FRAME_HEADER_LEN ==> ({
            let n = from_le32(buf@[0], buf@[1], buf@[2], buf@[3]) as int;
            &&& (r matches Err(e) && e == FrameError::SizeExceeded) <==> n > MAX_FRAME_LEN
            &&& (r matches Err(e) && e == FrameError::Truncated) <==> (n <= MAX_FRAME_LEN
                && buf@.len() < FRAME_HEADER_LEN + n)
            &&& r matches Ok((p, used)) ==> used == FRAME_HEADER_LEN + n && p@ == buf@.subrange(
                FRAME_HEADER_LEN as int,
                used as int,
            ) && buf@.take(used as int) == frame_of(p@)
        }),
{
    if buf.len() < FRAME_HEADER_LEN {
        return Err(FrameError::Truncated);
    }
    assert(buf@.skip(0) =~= buf@);
    let n = match get_u32(buf, 0) {
        Some((n, _)) => n,
        None => return Err(FrameError::Truncated),
    };
    if n as usize > MAX_FRAME_LEN {
        return Err(FrameError::SizeExceeded);
    }
    let len = n as usize;
    if buf.len() - FRAME_HEADER_LEN < len {
        return Err(FrameError::Truncated);
    }
    let used = FRAME_HEADER_LEN + len;
    let mut p: Vec<u8> = Vec::new();
    let mut i: usize = FRAME_HEADER_LEN;
    while i < used
        invariant
            FRAME_HEADER_LEN <= i <= used <= buf@.len(),
            p@ == buf@.subrange(FRAME_HEADER_LEN as int, i as int),
        decreases used - i,
    {
        p.push(buf[i]);
        i = i + 1;
        assert(p@ =~= buf@.subrange(FRAME_HEADER_LEN as int, i as int));
    }
    proof {
        crate::wire::lemma_take_u32_inv(buf@);
        assert(buf@ =~= le32(n) + buf@.skip(4));
        assert(p@.len() as u32 == n);
        assert(buf@.take(used as int) =~= frame_of(p@));
    }
    Ok((p, used))
}

/// Framing loses nothing: decoding the frame of a payload within the bound
/// gives back that payload and consumes exactly the frame.
pub proof fn lemma_frame_round_trip(payload: Seq<u8>, rest: Seq<u8>)
    requires
        payload.len() <= MAX_FRAME_LEN,
    ensures
        ({
            let s = frame_of(payload) + rest;
            &&& from_le32(s[0], s[1], s[2], s[3]) as int == payload.len()
            &&& s.subrange(FRAME_HEADER_LEN as int, FRAME_HEADER_LEN + payload.len()) == payload
        }),
{
    let s = frame_of(payload) + rest;
    assert(s =~= le32(payload.len() as u32) + (payload + rest));
    lemma_take_u32(payload.len() as u32, payload + rest);
    assert(s.subrange(4, 4 + payload.len() as int) =~= payload);
}

} // verus!
