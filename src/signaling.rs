//! The rendezvous protocol: packets exchanged with the matchmaking server
//! while two peers negotiate, in the same fixed-width encoding as the
//! netplay packets. Text fields hold UTF-8 bytes.
use vstd::prelude::*;

use crate::protocol::{CodecError, MAX_MESSAGE_LEN};
use crate::wire::{
    enc_bytes, get_bytes, get_u32, get_u8, le32, lemma_take_bytes, lemma_take_bytes_inv,
    lemma_take_u32, lemma_take_u32_inv, lemma_take_u8, lemma_take_u8_inv, put_bytes, put_u32,
    put_u8, take_bytes, take_u32, take_u8,
};

verus! {

/// Whether `b` is valid UTF-8.
pub uninterp spec fn is_utf8(b: Seq<u8>) -> bool;

/// Relies on `std::str::from_utf8`: it succeeds exactly on valid UTF-8.
#[verifier::external_body]
fn check_utf8(b: &[u8]) -> (r: bool)
    ensures
        r == is_utf8(b@),
{
    std::str::from_utf8(b).is_ok()
}

#[derive(Clone, Debug, PartialEq, Eq)]
pub enum Packet {
    Start { protocol_version: u8, session_id: Vec<u8>, offer_sdp: Vec<u8> },
    Offer { sdp: Vec<u8> },
    Answer { sdp: Vec<u8> },
    IceCandidate { candidate: Vec<u8>, mid: Vec<u8> },
}

pub enum PacketModel {
    Start { protocol_version: u8, session_id: Seq<u8>, offer_sdp: Seq<u8> },
    Offer { sdp: Seq<u8> },
    Answer { sdp: Seq<u8> },
    IceCandidate { candidate: Seq<u8>, mid: Seq<u8> },
}

impl View for Packet {
    type V = PacketModel;

    open spec fn view(&self) -> PacketModel {
        match self {
            Packet::Start { protocol_version, session_id, offer_sdp } => PacketModel::Start {
                protocol_version: *protocol_version,
                session_id: session_id@,
                offer_sdp: offer_sdp@,
            },
            Packet::Offer { sdp } => PacketModel::Offer { sdp: sdp@ },
            Packet::Answer { sdp } => PacketModel::Answer { sdp: sdp@ },
            Packet::IceCandidate { candidate, mid } => PacketModel::IceCandidate {
                candidate: candidate@,
                mid: mid@,
            },
        }
    }
}

/// A valid packet: every text field is UTF-8 and short enough to encode.
pub open spec fn text_ok(b: Seq<u8>) -> bool {
    b.len() <= u64::MAX && is_utf8(b)
}

pub open spec fn packet_valid(p: PacketModel) -> bool {
    match p {
        PacketModel::Start { session_id, offer_sdp, .. } => text_ok(session_id) && text_ok(
            offer_sdp,
        ),
        PacketModel::Offer { sdp } => text_ok(sdp),
        PacketModel::Answer { sdp } => text_ok(sdp),
        PacketModel::IceCandidate { candidate, mid } => text_ok(candidate) && text_ok(mid),
    }
}

/// The encoding: the variant's index as a `u32`, then the fields in order,
/// text as length-prefixed bytes.
pub open spec fn encode_signal(p: PacketModel) -> Seq<u8> {
    match p {
        PacketModel::Start { protocol_version, session_id, offer_sdp } => le32(0) + (seq![
            protocol_version,
        ] + (enc_bytes(session_id) + enc_bytes(offer_sdp))),
        PacketModel::Offer { sdp } => le32(1) + enc_bytes(sdp),
        PacketModel::Answer { sdp } => le32(2) + enc_bytes(sdp),
        PacketModel::IceCandidate { candidate, mid } => le32(3) + (enc_bytes(candidate)
            + enc_bytes(mid)),
    }
}

/// Reads two byte strings that make up all of `s`.
pub open spec fn take_two(s: Seq<u8>) -> Option<(Seq<u8>, Seq<u8>)> {
    match take_bytes(s) {
        Some((a, r1)) => match take_bytes(r1) {
            Some((b, r2)) => if r2.len() == 0 {
                Some((a, b))
            } else {
                None
            },
            None => None,
        },
        None => None,
    }
}

/// Reads one byte string that makes up all of `s`.
pub open spec fn take_one(s: Seq<u8>) -> Option<Seq<u8>> {
    match take_bytes(s) {
        Some((a, r)) => if r.len() == 0 {
            Some(a)
        } else {
            None
        },
        None => None,
    }
}

/// The packet whose layout `s` has, text not yet checked.
pub open spec fn parse_signal_fields(s: Seq<u8>) -> Option<PacketModel> {
    match take_u32(s) {
        Some((tag, r)) => if tag == 0 {
            match take_u8(r) {
                Some((v, r1)) => match take_two(r1) {
                    Some((a, b)) => Some(
                        PacketModel::Start { protocol_version: v, session_id: a, offer_sdp: b },
                    ),
                    None => None,
                },
                None => None,
            }
        } else if tag == 1 {
            match take_one(r) {
                Some(a) => Some(PacketModel::Offer { sdp: a }),
                None => None,
            }
        } else if tag == 2 {
            match take_one(r) {
                Some(a) => Some(PacketModel::Answer { sdp: a }),
                None => None,
            }
        } else if tag == 3 {
            match take_two(r) {
                Some((a, b)) => Some(PacketModel::IceCandidate { candidate: a, mid: b }),
                None => None,
            }
        } else {
            None
        },
        None => None,
    }
}

/// Reads a whole packet: the layout, then UTF-8 text.
pub open spec fn parse_signal(s: Seq<u8>) -> Option<PacketModel> {
    match parse_signal_fields(s) {
        Some(p) => if packet_valid(p) {
            Some(p)
        } else {
            None
        },
        None => None,
    }
}

proof fn lemma_take_two(a: Seq<u8>, b: Seq<u8>)
    requires
        a.len() <= u64::MAX,
        b.len() <= u64::MAX,
    ensures
        take_two(enc_bytes(a) + enc_bytes(b)) == Some((a, b)),
        take_one(enc_bytes(a)) == Some(a),
{
    let e = Seq::<u8>::empty();
    lemma_take_bytes(b, e);
    assert(enc_bytes(b) + e =~= enc_bytes(b));
    lemma_take_bytes(a, enc_bytes(b));
    lemma_take_bytes(a, e);
    assert(enc_bytes(a) + e =~= enc_bytes(a));
}

proof fn lemma_take_two_inv(s: Seq<u8>)
    ensures
        take_two(s) matches Some((a, b)) ==> a.len() <= u64::MAX && b.len() <= u64::MAX && s
            == enc_bytes(a) + enc_bytes(b),
        take_one(s) matches Some(a) ==> a.len() <= u64::MAX && s == enc_bytes(a),
{
    lemma_take_bytes_inv(s);
    if let Some((a, r1)) = take_bytes(s) {
        lemma_take_bytes_inv(r1);
        if let Some((b, r2)) = take_bytes(r1) {
            assert(r2.len() == 0 ==> r1 =~= enc_bytes(b));
        }
        assert(r1.len() == 0 ==> s =~= enc_bytes(a));
    }
}

/// Decoding the encoding of a valid packet gives it back, for every
/// variant.
pub proof fn lemma_signal_round_trip(p: PacketModel)
    requires
        packet_valid(p),
    ensures
        parse_signal(encode_signal(p)) == Some(p),
{
    match p {
        PacketModel::Start { protocol_version, session_id, offer_sdp } => {
            lemma_take_two(session_id, offer_sdp);
            lemma_take_u8(protocol_version, enc_bytes(session_id) + enc_bytes(offer_sdp));
            lemma_take_u32(
                0,
                seq![protocol_version] + (enc_bytes(session_id) + enc_bytes(offer_sdp)),
            );
        },
        PacketModel::Offer { sdp } => {
            lemma_take_two(sdp, sdp);
            lemma_take_u32(1, enc_bytes(sdp));
        },
        PacketModel::Answer { sdp } => {
            lemma_take_two(sdp, sdp);
            lemma_take_u32(2, enc_bytes(sdp));
        },
        PacketModel::IceCandidate { candidate, mid } => {
            lemma_take_two(candidate, mid);
            lemma_take_u32(3, enc_bytes(candidate) + enc_bytes(mid));
        },
    }
}

/// Only encodings decode: what `parse_signal` accepts is the encoding of
/// the valid packet it returns.
pub proof fn lemma_parse_signal_sound(s: Seq<u8>)
    ensures
        parse_signal(s) matches Some(p) ==> packet_valid(p) && s == encode_signal(p),
{
    lemma_take_u32_inv(s);
    if let Some((_tag, r)) = take_u32(s) {
        lemma_take_two_inv(r);
        lemma_take_u8_inv(r);
        if let Some((_v, r1)) = take_u8(r) {
            lemma_take_two_inv(r1);
        }
    }
}

fn get_two(d: &[u8], pos: usize) -> (r: Option<(Vec<u8>, Vec<u8>)>)
    requires
        pos <= d@.len(),
    ensures
        r is None <==> take_two(d@.skip(pos as int)) is None,
        r matches Some((a, b)) ==> take_two(d@.skip(pos as int)) == Some((a@, b@)),
{
    let (a, p1) = match get_bytes(d, pos) {
        Some(x) => x,
        None => return None,
    };
    let (b, p2) = match get_bytes(d, p1) {
        Some(x) => x,
        None => return None,
    };
    if p2 != d.len() {
        return None;
    }
    Some((a, b))
}

fn get_one(d: &[u8], pos: usize) -> (r: Option<Vec<u8>>)
    requires
        pos <= d@.len(),
    ensures
        r is None <==> take_one(d@.skip(pos as int)) is None,
        r matches Some(a) ==> take_one(d@.skip(pos as int)) == Some(a@),
{
    let (a, p1) = match get_bytes(d, pos) {
        Some(x) => x,
        None => return None,
    };
    if p1 != d.len() {
        return None;
    }
    Some(a)
}

/// Reads the layout of a packet from exactly the bytes of `d`, leaving
/// the text fields unchecked.
pub fn decode_fields(d: &[u8]) -> (r: Option<Packet>)
    ensures
        r is None <==> parse_signal_fields(d@) is None,
        r matches Some(p) ==> parse_signal_fields(d@) == Some(p@),
{
    assert(d@.skip(0) =~= d@);
    let (tag, p) = match get_u32(d, 0) {
        Some(x) => x,
        None => return None,
    };
    if tag == 0 {
        let (v, p1) = match get_u8(d, p) {
            Some(x) => x,
            None => return None,
        };
        match get_two(d, p1) {
            Some((a, b)) => Some(Packet::Start { protocol_version: v, session_id: a, offer_sdp: b }),
            None => None,
        }
    } else if tag == 1 {
        match get_one(d, p) {
            Some(a) => Some(Packet::Offer { sdp: a }),
            None => None,
        }
    } else if tag == 2 {
        match get_one(d, p) {
            Some(a) => Some(Packet::Answer { sdp: a }),
            None => None,
        }
    } else if tag == 3 {
        match get_two(d, p) {
            Some((a, b)) => Some(Packet::IceCandidate { candidate: a, mid: b }),
            None => None,
        }
    } else {
        None
    }
}

impl Packet {
    /// Encodes the packet; fails only when the encoding would exceed
    /// `MAX_MESSAGE_LEN`.
    pub fn serialize(&self) -> (r: Result<Vec<u8>, CodecError>)
        ensures
            r matches Ok(v) ==> v@ == encode_signal(self@) && v@.len() <= MAX_MESSAGE_LEN,
            r matches Err(e) ==> e == CodecError::SizeLimit && encode_signal(self@).len()
                > MAX_MESSAGE_LEN,
    {
        let mut out: Vec<u8> = Vec::new();
        match self {
            Packet::Start { protocol_version, session_id, offer_sdp } => {
                if session_id.len() > MAX_MESSAGE_LEN - 21 || offer_sdp.len() > MAX_MESSAGE_LEN - 21
                    - session_id.len() {
                    return Err(CodecError::SizeLimit);
                }
                put_u32(&mut out, 0);
                put_u8(&mut out, *protocol_version);
                put_bytes(&mut out, session_id.as_slice());
                put_bytes(&mut out, offer_sdp.as_slice());
            },
            Packet::Offer { sdp } => {
                if sdp.len() > MAX_MESSAGE_LEN - 12 {
                    return Err(CodecError::SizeLimit);
                }
                put_u32(&mut out, 1);
                put_bytes(&mut out, sdp.as_slice());
            },
            Packet::Answer { sdp } => {
                if sdp.len() > MAX_MESSAGE_LEN - 12 {
                    return Err(CodecError::SizeLimit);
                }
                put_u32(&mut out, 2);
                put_bytes(&mut out, sdp.as_slice());
            },
            Packet::IceCandidate { candidate, mid } => {
                if candidate.len() > MAX_MESSAGE_LEN - 20 || mid.len() > MAX_MESSAGE_LEN - 20
                    - candidate.len() {
                    return Err(CodecError::SizeLimit);
                }
                put_u32(&mut out, 3);
                put_bytes(&mut out, candidate.as_slice());
                put_bytes(&mut out, mid.as_slice());
            },
        }
        assert(out@ =~= encode_signal(self@));
        Ok(out)
    }

    /// Decodes one packet from exactly the bytes of `d`, text fields
    /// checked to be UTF-8.
    pub fn deserialize(d: &[u8]) -> (r: Result<Packet, CodecError>)
        ensures
            r matches Ok(p) ==> d@.len() <= MAX_MESSAGE_LEN && parse_signal(d@) == Some(p@)
                && d@ == encode_signal(p@),
            r matches Err(e) ==> (e == CodecError::SizeLimit <==> d@.len() > MAX_MESSAGE_LEN),
            r matches Err(e) ==> (e == CodecError::Malformed ==> parse_signal(d@) is None
                && forall|q: PacketModel| packet_valid(q) ==> encode_signal(q) != d@),
    {
        if d.len() > MAX_MESSAGE_LEN {
            return Err(CodecError::SizeLimit);
        }
        proof {
            lemma_parse_signal_sound(d@);
            assert forall|q: PacketModel| packet_valid(q) && parse_signal(d@) is None implies encode_signal(q) != d@ by {
                lemma_signal_round_trip(q);
            }
        }
        let p = match decode_fields(d) {
            Some(p) => p,
            None => return Err(CodecError::Malformed),
        };
        let ok = match &p {
            Packet::Start { session_id, offer_sdp, .. } => check_utf8(session_id.as_slice())
                && check_utf8(offer_sdp.as_slice()),
            Packet::Offer { sdp } => check_utf8(sdp.as_slice()),
            Packet::Answer { sdp } => check_utf8(sdp.as_slice()),
            Packet::IceCandidate { candidate, mid } => check_utf8(candidate.as_slice())
                && check_utf8(mid.as_slice()),
        };
        if ok {
            Ok(p)
        } else {
            Err(CodecError::Malformed)
        }
    }
}

} // verus!
