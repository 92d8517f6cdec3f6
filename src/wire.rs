//! Fixed-width little-endian encoding of integers and byte strings, with
//! a reader over a byte slice that matches a spec-level parser.
use vstd::prelude::*;

verus! {

/// Little-endian bytes of a `u16`.
pub open spec fn le16(x: u16) -> Seq<u8> {
    seq![(x & 0xff) as u8, ((x >> 8u16) & 0xff) as u8]
}

/// Little-endian bytes of a `u32`.
pub open spec fn le32(x: u32) -> Seq<u8> {
    seq![
        (x & 0xff) as u8,
        ((x >> 8u32) & 0xff) as u8,
        ((x >> 16u32) & 0xff) as u8,
        ((x >> 24u32) & 0xff) as u8,
    ]
}

/// Little-endian bytes of a `u64`.
pub open spec fn le64(x: u64) -> Seq<u8> {
    seq![
        (x & 0xff) as u8,
        ((x >> 8u64) & 0xff) as u8,
        ((x >> 16u64) & 0xff) as u8,
        ((x >> 24u64) & 0xff) as u8,
        ((x >> 32u64) & 0xff) as u8,
        ((x >> 40u64) & 0xff) as u8,
        ((x >> 48u64) & 0xff) as u8,
        ((x >> 56u64) & 0xff) as u8,
    ]
}

pub open spec fn from_le16(b0: u8, b1: u8) -> u16 {
    (b0 as u16) | ((b1 as u16) << 8u16)
}

pub open spec fn from_le32(b0: u8, b1: u8, b2: u8, b3: u8) -> u32 {
    (b0 as u32) | ((b1 as u32) << 8u32) | ((b2 as u32) << 16u32) | ((b3 as u32) << 24u32)
}

pub open spec fn from_le64(b0: u8, b1: u8, b2: u8, b3: u8, b4: u8, b5: u8, b6: u8, b7: u8) -> u64 {
    (b0 as u64) | ((b1 as u64) << 8u64) | ((b2 as u64) << 16u64) | ((b3 as u64) << 24u64) | ((
    b4 as u64) << 32u64) | ((b5 as u64) << 40u64) | ((b6 as u64) << 48u64) | ((b7 as u64)
        << 56u64)
}

/// A byte string on the wire: its length as a `u64`, then its bytes.
pub open spec fn enc_bytes(b: Seq<u8>) -> Seq<u8> {
    le64(b.len() as u64) + b
}

/// Reads one byte; `None` when the input is empty.
pub open spec fn take_u8(s: Seq<u8>) -> Option<(u8, Seq<u8>)> {
    if s.len() >= 1 {
        Some((s[0], s.skip(1)))
    } else {
        None
    }
}

pub open spec fn take_u16(s: Seq<u8>) -> Option<(u16, Seq<u8>)> {
    if s.len() >= 2 {
        Some((from_le16(s[0], s[1]), s.skip(2)))
    } else {
        None
    }
}

pub open spec fn take_u32(s: Seq<u8>) -> Option<(u32, Seq<u8>)> {
    if s.len() >= 4 {
        Some((from_le32(s[0], s[1], s[2], s[3]), s.skip(4)))
    } else {
        None
    }
}

pub open spec fn take_u64(s: Seq<u8>) -> Option<(u64, Seq<u8>)> {
    if s.len() >= 8 {
        Some((from_le64(s[0], s[1], s[2], s[3], s[4], s[5], s[6], s[7]), s.skip(8)))
    } else {
        None
    }
}

/// Reads a length-prefixed byte string; `None` when the declared length
/// runs past the end of the input.
pub open spec fn take_bytes(s: Seq<u8>) -> Option<(Seq<u8>, Seq<u8>)> {
    match take_u64(s) {
        Some((n, r)) => if n as int <= r.len() {
            Some((r.take(n as int), r.skip(n as int)))
        } else {
            None
        },
        None => None,
    }
}

pub proof fn lemma_take_u8(x: u8, r: Seq<u8>)
    ensures
        take_u8(seq![x] + r) == Some((x, r)),
{
    assert((seq![x] + r).skip(1) =~= r);
}

pub proof fn lemma_take_u8_inv(s: Seq<u8>)
    ensures
        take_u8(s) matches Some((x, r)) ==> s == seq![x] + r,
{
    if s.len() >= 1 {
        assert(s =~= seq![s[0]] + s.skip(1));
    }
}

pub proof fn lemma_take_u16(x: u16, r: Seq<u8>)
    ensures
        take_u16(le16(x) + r) == Some((x, r)),
{
    let s = le16(x) + r;
    let b0 = (x & 0xff) as u8;
    let b1 = ((x >> 8u16) & 0xff) as u8;
    assert(s[0] == b0 && s[1] == b1);
    assert(from_le16(b0, b1) == x) by (bit_vector)
        requires
            b0 == (x & 0xff) as u8,
            b1 == ((x >> 8u16) & 0xff) as u8,
    ;
    assert(s.skip(2) =~= r);
}

pub proof fn lemma_take_u16_inv(s: Seq<u8>)
    ensures
        take_u16(s) matches Some((x, r)) ==> s == le16(x) + r,
{
    if s.len() >= 2 {
        let b0 = s[0];
        let b1 = s[1];
        let x = from_le16(b0, b1);
        assert(b0 == (x & 0xff) as u8 && b1 == ((x >> 8u16) & 0xff) as u8) by (bit_vector)
            requires
                x == from_le16(b0, b1),
        ;
        assert(s =~= le16(x) + s.skip(2));
    }
}

pub proof fn lemma_take_u32(x: u32, r: Seq<u8>)
    ensures
        take_u32(le32(x) + r) == Some((x, r)),
{
    let s = le32(x) + r;
    let b0 = (x & 0xff) as u8;
    let b1 = ((x >> 8u32) & 0xff) as u8;
    let b2 = ((x >> 16u32) & 0xff) as u8;
    let b3 = ((x >> 24u32) & 0xff) as u8;
    assert(s[0] == b0 && s[1] == b1 && s[2] == b2 && s[3] == b3);
    assert(from_le32(b0, b1, b2, b3) == x) by (bit_vector)
        requires
            b0 == (x & 0xff) as u8,
            b1 == ((x >> 8u32) & 0xff) as u8,
            b2 == ((x >> 16u32) & 0xff) as u8,
            b3 == ((x >> 24u32) & 0xff) as u8,
    ;
    assert(s.skip(4) =~= r);
}

pub proof fn lemma_take_u32_inv(s: Seq<u8>)
    ensures
        take_u32(s) matches Some((x, r)) ==> s == le32(x) + r,
{
    if s.len() >= 4 {
        let b0 = s[0];
        let b1 = s[1];
        let b2 = s[2];
        let b3 = s[3];
        let x = from_le32(b0, b1, b2, b3);
        assert(b0 == (x & 0xff) as u8 && b1 == ((x >> 8u32) & 0xff) as u8 && b2 == ((x >> 16u32)
            & 0xff) as u8 && b3 == ((x >> 24u32) & 0xff) as u8) by (bit_vector)
            requires
                x == from_le32(b0, b1, b2, b3),
        ;
        assert(s =~= le32(x) + s.skip(4));
    }
}

pub proof fn lemma_take_u64(x: u64, r: Seq<u8>)
    ensures
        take_u64(le64(x) + r) == Some((x, r)),
{
    let s = le64(x) + r;
    let b0 = (x & 0xff) as u8;
    let b1 = ((x >> 8u64) & 0xff) as u8;
    let b2 = ((x >> 16u64) & 0xff) as u8;
    let b3 = ((x >> 24u64) & 0xff) as u8;
    let b4 = ((x >> 32u64) & 0xff) as u8;
    let b5 = ((x >> 40u64) & 0xff) as u8;
    let b6 = ((x >> 48u64) & 0xff) as u8;
    let b7 = ((x >> 56u64) & 0xff) as u8;
    assert(s[0] == b0 && s[1] == b1 && s[2] == b2 && s[3] == b3);
    assert(s[4] == b4 && s[5] == b5 && s[6] == b6 && s[7] == b7);
    assert(from_le64(b0, b1, b2, b3, b4, b5, b6, b7) == x) by (bit_vector)
        requires
            b0 == (x & 0xff) as u8,
            b1 == ((x >> 8u64) & 0xff) as u8,
            b2 == ((x >> 16u64) & 0xff) as u8,
            b3 == ((x >> 24u64) & 0xff) as u8,
            b4 == ((x >> 32u64) & 0xff) as u8,
            b5 == ((x >> 40u64) & 0xff) as u8,
            b6 == ((x >> 48u64) & 0xff) as u8,
            b7 == ((x >> 56u64) & 0xff) as u8,
    ;
    assert(s.skip(8) =~= r);
}

pub proof fn lemma_take_u64_inv(s: Seq<u8>)
    ensures
        take_u64(s) matches Some((x, r)) ==> s == le64(x) + r,
{
    if s.len() >= 8 {
        let b0 = s[0];
        let b1 = s[1];
        let b2 = s[2];
        let b3 = s[3];
        let b4 = s[4];
        let b5 = s[5];
        let b6 = s[6];
        let b7 = s[7];
        let x = from_le64(b0, b1, b2, b3, b4, b5, b6, b7);
        assert(b0 == (x & 0xff) as u8 && b1 == ((x >> 8u64) & 0xff) as u8 && b2 == ((x >> 16u64)
            & 0xff) as u8 && b3 == ((x >> 24u64) & 0xff) as u8 && b4 == ((x >> 32u64) & 0xff) as u8
            && b5 == ((x >> 40u64) & 0xff) as u8 && b6 == ((x >> 48u64) & 0xff) as u8 && b7 == ((x
            >> 56u64) & 0xff) as u8) by (bit_vector)
            requires
                x == from_le64(b0, b1, b2, b3, b4, b5, b6, b7),
        ;
        assert(s =~= le64(x) + s.skip(8));
    }
}

pub proof fn lemma_take_bytes(b: Seq<u8>, r: Seq<u8>)
    requires
        b.len() <= u64::MAX,
    ensures
        take_bytes(enc_bytes(b) + r) == Some((b, r)),
{
    let n = b.len() as u64;
    assert(enc_bytes(b) + r =~= le64(n) + (b + r));
    lemma_take_u64(n, b + r);
    assert((b + r).take(b.len() as int) =~= b);
    assert((b + r).skip(b.len() as int) =~= r);
}

pub proof fn lemma_take_bytes_inv(s: Seq<u8>)
    ensures
        take_bytes(s) matches Some((b, r)) ==> b.len() <= u64::MAX && s == enc_bytes(b) + r,
{
    lemma_take_u64_inv(s);
    if let Some((n, r0)) = take_u64(s) {
        if n as int <= r0.len() {
            let b = r0.take(n as int);
            assert(b.len() as u64 == n);
            assert(s =~= enc_bytes(b) + r0.skip(n as int));
        }
    }
}

/// Appends `x`.
pub fn put_u8(out: &mut Vec<u8>, x: u8)
    ensures
        final(out)@ == old(out)@ + seq![x],
{
    out.push(x);
}

/// Appends `x` in little-endian order.
pub fn put_u16(out: &mut Vec<u8>, x: u16)
    ensures
        final(out)@ == old(out)@ + le16(x),
{
    out.push((x & 0xff) as u8);
    out.push(((x >> 8u16) & 0xff) as u8);
    assert(final(out)@ =~= old(out)@ + le16(x));
}

/// Appends `x` in little-endian order.
pub fn put_u32(out: &mut Vec<u8>, x: u32)
    ensures
        final(out)@ == old(out)@ + le32(x),
{
    out.push((x & 0xff) as u8);
    out.push(((x >> 8u32) & 0xff) as u8);
    out.push(((x >> 16u32) & 0xff) as u8);
    out.push(((x >> 24u32) & 0xff) as u8);
    assert(final(out)@ =~= old(out)@ + le32(x));
}

/// Appends `x` in little-endian order.
pub fn put_u64(out: &mut Vec<u8>, x: u64)
    ensures
        final(out)@ == old(out)@ + le64(x),
{
    out.push((x & 0xff) as u8);
    out.push(((x >> 8u64) & 0xff) as u8);
    out.push(((x >> 16u64) & 0xff) as u8);
    out.push(((x >> 24u64) & 0xff) as u8);
    out.push(((x >> 32u64) & 0xff) as u8);
    out.push(((x >> 40u64) & 0xff) as u8);
    out.push(((x >> 48u64) & 0xff) as u8);
    out.push(((x >> 56u64) & 0xff) as u8);
    assert(final(out)@ =~= old(out)@ + le64(x));
}

/// Appends the bytes of `b`, without a length.
pub fn put_raw(out: &mut Vec<u8>, b: &[u8])
    ensures
        final(out)@ == old(out)@ + b@,
{
    let ghost start = out@;
    let mut i: usize = 0;
    while i < b.len()
        invariant
            i <= b@.len(),
            out@ == start + b@.take(i as int),
        decreases b@.len() - i,
    {
        out.push(b[i]);
        i = i + 1;
        assert(out@ =~= start + b@.take(i as int));
    }
    assert(b@.take(b@.len() as int) =~= b@);
}

/// Appends `b` as a length-prefixed byte string.
pub fn put_bytes(out: &mut Vec<u8>, b: &[u8])
    ensures
        final(out)@ == old(out)@ + enc_bytes(b@),
{
    put_u64(out, b.len() as u64);
    put_raw(out, b);
    assert(final(out)@ =~= old(out)@ + enc_bytes(b@));
}

/// Reads one byte at `pos`; on success also returns the position after it.
pub fn get_u8(d: &[u8], pos: usize) -> (r: Option<(u8, usize)>)
    requires
        pos <= d@.len(),
    ensures
        r is None <==> take_u8(d@.skip(pos as int)) is None,
        r matches Some((x, p)) ==> pos <= p <= d@.len() && take_u8(d@.skip(pos as int)) == Some(
            (x, d@.skip(p as int)),
        ),
{
    if d.len() - pos < 1 {
        None
    } else {
        assert(d@.skip(pos as int).skip(1) =~= d@.skip(pos + 1));
        Some((d[pos], pos + 1))
    }
}

/// Reads a little-endian `u16` at `pos`.
pub fn get_u16(d: &[u8], pos: usize) -> (r: Option<(u16, usize)>)
    requires
        pos <= d@.len(),
    ensures
        r is None <==> take_u16(d@.skip(pos as int)) is None,
        r matches Some((x, p)) ==> pos <= p <= d@.len() && take_u16(d@.skip(pos as int)) == Some(
            (x, d@.skip(p as int)),
        ),
{
    if d.len() - pos < 2 {
        None
    } else {
        let x = (d[pos] as u16) | ((d[pos + 1] as u16) << 8u16);
        assert(d@.skip(pos as int).skip(2) =~= d@.skip(pos + 2));
        Some((x, pos + 2))
    }
}

/// Reads a little-endian `u32` at `pos`.
pub fn get_u32(d: &[u8], pos: usize) -> (r: Option<(u32, usize)>)
    requires
        pos <= d@.len(),
    ensures
        r is None <==> take_u32(d@.skip(pos as int)) is None,
        r matches Some((x, p)) ==> pos <= p <= d@.len() && take_u32(d@.skip(pos as int)) == Some(
            (x, d@.skip(p as int)),
        ),
{
    if d.len() - pos < 4 {
        None
    } else {
        let x = (d[pos] as u32) | ((d[pos + 1] as u32) << 8u32) | ((d[pos + 2] as u32) << 16u32)
            | ((d[pos + 3] as u32) << 24u32);
        assert(d@.skip(pos as int).skip(4) =~= d@.skip(pos + 4));
        Some((x, pos + 4))
    }
}

/// Reads a little-endian `u64` at `pos`.
pub fn get_u64(d: &[u8], pos: usize) -> (r: Option<(u64, usize)>)
    requires
        pos <= d@.len(),
    ensures
        r is None <==> take_u64(d@.skip(pos as int)) is None,
        r matches Some((x, p)) ==> pos <= p <= d@.len() && take_u64(d@.skip(pos as int)) == Some(
            (x, d@.skip(p as int)),
        ),
{
    if d.len() - pos < 8 {
        None
    } else {
        let x = (d[pos] as u64) | ((d[pos + 1] as u64) << 8u64) | ((d[pos + 2] as u64) << 16u64)
            | ((d[pos + 3] as u64) << 24u64) | ((d[pos + 4] as u64) << 32u64) | ((d[pos
            + 5] as u64) << 40u64) | ((d[pos + 6] as u64) << 48u64) | ((d[pos + 7] as u64)
            << 56u64);
        assert(d@.skip(pos as int).skip(8) =~= d@.skip(pos + 8));
        Some((x, pos + 8))
    }
}

/// Copies `d[start..end]`.
pub fn copy_range(d: &[u8], start: usize, end: usize) -> (v: Vec<u8>)
    requires
        start <= end <= d@.len(),
    ensures
        v@ == d@.subrange(start as int, end as int),
{
    let mut v: Vec<u8> = Vec::new();
    let mut i: usize = start;
    while i < end
        invariant
            start <= i <= end <= d@.len(),
            v@ == d@.subrange(start as int, i as int),
        decreases end - i,
    {
        v.push(d[i]);
        i = i + 1;
        assert(v@ =~= d@.subrange(start as int, i as int));
    }
    v
}

/// Reads a length-prefixed byte string at `pos`.
pub fn get_bytes(d: &[u8], pos: usize) -> (r: Option<(Vec<u8>, usize)>)
    requires
        pos <= d@.len(),
    ensures
        r is None <==> take_bytes(d@.skip(pos as int)) is None,
        r matches Some((b, p)) ==> pos <= p <= d@.len() && take_bytes(d@.skip(pos as int))
            == Some((b@, d@.skip(p as int))),
{
    match get_u64(d, pos) {
        None => None,
        Some((n, p)) => {
            let rem = d.len() - p;
            if n > rem as u64 {
                None
            } else {
                let end = p + n as usize;
                let b = copy_range(d, p, end);
                assert(d@.skip(p as int).take(n as int) =~= d@.subrange(p as int, end as int));
                assert(d@.skip(p as int).skip(n as int) =~= d@.skip(end as int));
                Some((b, end))
            }
        },
    }
}

} // verus!

verus! {

/// A copy of `b`.
pub fn copy_bytes(b: &[u8]) -> (v: Vec<u8>)
    ensures
        v@ == b@,
{
    let v = copy_range(b, 0, b.len());
    assert(b@.subrange(0, b@.len() as int) =~= b@);
    v
}

} // verus!
