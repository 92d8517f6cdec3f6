//! Control messages between the core process and its host, carried as
//! frames over the host link.
use vstd::prelude::*;

use crate::framing::{
    decode_frame, encode_frame, frame_of, lemma_frame_round_trip, FrameError, MAX_FRAME_LEN,
};
use crate::protocol::{
    encode_packet, lemma_packet_round_trip, lemma_parse_packet_sound, packet_wf, parse_packet,
    Packet, PacketModel,
};
use crate::wire::{
    enc_bytes, get_bytes, get_u32, le32, lemma_take_bytes, lemma_take_bytes_inv, lemma_take_u32,
    lemma_take_u32_inv, put_bytes, put_u32, put_u8, take_bytes, take_u32,
};

verus! {

/// Lifecycle and battle events reported to the host, and the netplay
/// packets passed through to it.
#[derive(Clone, Debug, PartialEq, Eq)]
pub enum Outgoing {
    Running,
    BattleStart { battle_number: u8, local_player_index: u8 },
    BattleEnd,
    MatchEnd,
    /// A snapshot of the local emulator state.
    LocalState(Vec<u8>),
    /// A netplay packet.
    Packet(Packet),
}

/// What the host sends to the core: netplay packets to pass on.
#[derive(Clone, Debug, PartialEq, Eq)]
pub enum Incoming {
    Packet(Packet),
}

pub enum OutgoingModel {
    Running,
    BattleStart { battle_number: u8, local_player_index: u8 },
    BattleEnd,
    MatchEnd,
    LocalState(Seq<u8>),
    Packet(PacketModel),
}

pub enum IncomingModel {
    Packet(PacketModel),
}

impl View for Outgoing {
    type V = OutgoingModel;

    open spec fn view(&self) -> OutgoingModel {
        match self {
            Outgoing::Running => OutgoingModel::Running,
            Outgoing::BattleStart { battle_number, local_player_index } =>
                OutgoingModel::BattleStart {
                battle_number: *battle_number,
                local_player_index: *local_player_index,
            },
            Outgoing::BattleEnd => OutgoingModel::BattleEnd,
            Outgoing::MatchEnd => OutgoingModel::MatchEnd,
            Outgoing::LocalState(b) => OutgoingModel::LocalState(b@),
            Outgoing::Packet(p) => OutgoingModel::Packet(p@),
        }
    }
}

impl View for Incoming {
    type V = IncomingModel;

    open spec fn view(&self) -> IncomingModel {
        match self {
            Incoming::Packet(p) => IncomingModel::Packet(p@),
        }
    }
}

#[derive(Debug, Clone, Copy, PartialEq, Eq, Structural)]
pub enum IpcError {
    /// The frame itself could not be read or written.
    Frame(FrameError),
    /// The frame's payload is not an encoded message.
    Malformed,
}

/// Every byte string in the message has a length a `u64` can hold (true of
/// every `Outgoing` value).
pub open spec fn outgoing_wf(m: OutgoingModel) -> bool {
    match m {
        OutgoingModel::LocalState(b) => b.len() <= u64::MAX,
        OutgoingModel::Packet(p) => packet_wf(p),
        _ => true,
    }
}

/// The encoding of a message: the variant's index as a `u32`, then its
/// fields; an embedded packet in its own encoding.
pub open spec fn encode_outgoing(m: OutgoingModel) -> Seq<u8> {
    match m {
        OutgoingModel::Running => le32(0),
        OutgoingModel::BattleStart { battle_number, local_player_index } => le32(1) + seq![
            battle_number,
            local_player_index,
        ],
        OutgoingModel::BattleEnd => le32(2),
        OutgoingModel::MatchEnd => le32(3),
        OutgoingModel::LocalState(b) => le32(4) + enc_bytes(b),
        OutgoingModel::Packet(p) => le32(5) + encode_packet(p),
    }
}

/// Reads a whole message; `None` unless `s` is exactly one encoded message.
pub open spec fn parse_outgoing(s: Seq<u8>) -> Option<OutgoingModel> {
    match take_u32(s) {
        Some((tag, r)) => if tag == 0 && r.len() == 0 {
            Some(OutgoingModel::Running)
        } else if tag == 1 && r.len() == 2 {
            Some(OutgoingModel::BattleStart { battle_number: r[0], local_player_index: r[1] })
        } else if tag == 2 && r.len() == 0 {
            Some(OutgoingModel::BattleEnd)
        } else if tag == 3 && r.len() == 0 {
            Some(OutgoingModel::MatchEnd)
        } else if tag == 4 {
            match take_bytes(r) {
                Some((b, r2)) => if r2.len() == 0 {
                    Some(OutgoingModel::LocalState(b))
                } else {
                    None
                },
                None => None,
            }
        } else if tag == 5 {
            match parse_packet(r) {
                Some(p) => Some(OutgoingModel::Packet(p)),
                None => None,
            }
        } else {
            None
        },
        None => None,
    }
}

pub open spec fn encode_incoming(m: IncomingModel) -> Seq<u8> {
    match m {
        IncomingModel::Packet(p) => le32(0) + encode_packet(p),
    }
}

pub open spec fn parse_incoming(s: Seq<u8>) -> Option<IncomingModel> {
    match take_u32(s) {
        Some((tag, r)) => if tag == 0 {
            match parse_packet(r) {
                Some(p) => Some(IncomingModel::Packet(p)),
                None => None,
            }
        } else {
            None
        },
        None => None,
    }
}

/// Decoding an encoded message gives it back, and only encodings decode.
pub proof fn lemma_outgoing_round_trip(m: OutgoingModel, s: Seq<u8>)
    requires
        outgoing_wf(m),
    ensures
        parse_outgoing(encode_outgoing(m)) == Some(m),
        parse_outgoing(s) matches Some(n) ==> outgoing_wf(n) && s == encode_outgoing(n),
{
    let e = Seq::<u8>::empty();
    match m {
        OutgoingModel::BattleStart { battle_number, local_player_index } => {
            lemma_take_u32(1, seq![battle_number, local_player_index]);
        },
        OutgoingModel::Running => {
            lemma_take_u32(0, e);
            assert(le32(0) + e =~= le32(0));
        },
        OutgoingModel::BattleEnd => {
            lemma_take_u32(2, e);
            assert(le32(2) + e =~= le32(2));
        },
        OutgoingModel::MatchEnd => {
            lemma_take_u32(3, e);
            assert(le32(3) + e =~= le32(3));
        },
        OutgoingModel::LocalState(b) => {
            lemma_take_bytes(b, e);
            assert(enc_bytes(b) + e =~= enc_bytes(b));
            lemma_take_u32(4, enc_bytes(b));
        },
        OutgoingModel::Packet(p) => {
            lemma_packet_round_trip(p);
            lemma_take_u32(5, encode_packet(p));
        },
    }
    lemma_take_u32_inv(s);
    if let Some((_tag, r)) = take_u32(s) {
        if r.len() == 0 {
            assert(r =~= e);
        }
        if r.len() == 2 {
            assert(r =~= seq![r[0], r[1]]);
        }
        lemma_take_bytes_inv(r);
        if let Some((b, r2)) = take_bytes(r) {
            assert(r2.len() == 0 ==> r =~= enc_bytes(b));
        }
        lemma_parse_packet_sound(r);
    }
}

/// Decoding an encoded host message gives it back, and only encodings
/// decode.
pub proof fn lemma_incoming_round_trip(m: IncomingModel, s: Seq<u8>)
    requires
        m matches IncomingModel::Packet(p) && packet_wf(p),
    ensures
        parse_incoming(encode_incoming(m)) == Some(m),
        parse_incoming(s) matches Some(IncomingModel::Packet(q)) ==> packet_wf(q) && s
            == encode_incoming(IncomingModel::Packet(q)),
{
    let IncomingModel::Packet(p) = m;
    lemma_packet_round_trip(p);
    lemma_take_u32(0, encode_packet(p));
    lemma_take_u32_inv(s);
    if let Some((_tag, r)) = take_u32(s) {
        lemma_parse_packet_sound(r);
    }
}

/// A message, framed for the host link, reads back as the same message.
pub proof fn lemma_message_round_trip(m: OutgoingModel, rest: Seq<u8>)
    requires
        outgoing_wf(m),
        encode_outgoing(m).len() <= MAX_FRAME_LEN,
    ensures
        ({
            let s = frame_of(encode_outgoing(m)) + rest;
            let n = crate::wire::from_le32(s[0], s[1], s[2], s[3]) as int;
            &&& n == encode_outgoing(m).len()
            &&& parse_outgoing(s.subrange(4, 4 + n)) == Some(m)
        }),
{
    lemma_frame_round_trip(encode_outgoing(m), rest);
    lemma_outgoing_round_trip(m, Seq::<u8>::empty());
}

impl Outgoing {
    /// The message's encoding.
    pub fn encode(&self) -> (r: Vec<u8>)
        ensures
            r@ == encode_outgoing(self@),
    {
        let mut out: Vec<u8> = Vec::new();
        match self {
            Outgoing::Running => put_u32(&mut out, 0),
            Outgoing::BattleStart { battle_number, local_player_index } => {
                put_u32(&mut out, 1);
                put_u8(&mut out, *battle_number);
                put_u8(&mut out, *local_player_index);
            },
            Outgoing::BattleEnd => put_u32(&mut out, 2),
            Outgoing::MatchEnd => put_u32(&mut out, 3),
            Outgoing::LocalState(b) => {
                put_u32(&mut out, 4);
                put_bytes(&mut out, b.as_slice());
            },
            Outgoing::Packet(p) => {
                put_u32(&mut out, 5);
                p.encode_into(&mut out);
            },
        }
        assert(out@ =~= encode_outgoing(self@));
        out
    }

    /// Decodes a message from exactly the bytes of `d`.
    pub fn decode(d: &[u8]) -> (r: Option<Outgoing>)
        ensures
            r is None <==> parse_outgoing(d@) is None,
            r matches Some(m) ==> parse_outgoing(d@) == Some(m@),
    {
        assert(d@.skip(0) =~= d@);
        let (tag, p) = match get_u32(d, 0) {
            Some(x) => x,
            None => return None,
        };
        let rest = d.len() - p;
        if tag == 0 && rest == 0 {
            Some(Outgoing::Running)
        } else if tag == 1 && rest == 2 {
            Some(Outgoing::BattleStart { battle_number: d[p], local_player_index: d[p + 1] })
        } else if tag == 2 && rest == 0 {
            Some(Outgoing::BattleEnd)
        } else if tag == 3 && rest == 0 {
            Some(Outgoing::MatchEnd)
        } else if tag == 4 {
            match get_bytes(d, p) {
                Some((b, p2)) => if p2 == d.len() {
                    Some(Outgoing::LocalState(b))
                } else {
                    None
                },
                None => None,
            }
        } else if tag == 5 {
            match Packet::decode_at(d, p) {
                Some(q) => Some(Outgoing::Packet(q)),
                None => None,
            }
        } else {
            None
        }
    }
}

impl Incoming {
    /// The message's encoding.
    pub fn encode(&self) -> (r: Vec<u8>)
        ensures
            r@ == encode_incoming(self@),
    {
        let mut out: Vec<u8> = Vec::new();
        match self {
            Incoming::Packet(p) => {
                put_u32(&mut out, 0);
                p.encode_into(&mut out);
            },
        }
        out
    }

    /// Decodes a message from exactly the bytes of `d`.
    pub fn decode(d: &[u8]) -> (r: Option<Incoming>)
        ensures
            r is None <==> parse_incoming(d@) is None,
            r matches Some(m) ==> parse_incoming(d@) == Some(m@),
    {
        assert(d@.skip(0) =~= d@);
        let (tag, p) = match get_u32(d, 0) {
            Some(x) => x,
            None => return None,
        };
        if tag != 0 {
            return None;
        }
        match Packet::decode_at(d, p) {
            Some(q) => Some(Incoming::Packet(q)),
            None => None,
        }
    }
}

/// The frame that carries `m` on the host link; refused when the message
/// is longer than a frame may be.
pub fn write_message(m: &Outgoing) -> (r: Result<Vec<u8>, FrameError>)
    ensures
        r matches Ok(v) ==> encode_outgoing(m@).len() <= MAX_FRAME_LEN && v@ == frame_of(
            encode_outgoing(m@),
        ),
        r matches Err(e) ==> e == FrameError::SizeExceeded && encode_outgoing(m@).len()
            > MAX_FRAME_LEN,
{
    let payload = m.encode();
    encode_frame(payload.as_slice())
}

/// Reads one framed message from the front of `buf`, with the number of
/// bytes it took.
pub fn read_message(buf: &[u8]) -> (r: Result<(Outgoing, usize), IpcError>)
    ensures
        r matches Ok((m, used)) ==> used <= buf@.len() && buf@.take(used as int) == frame_of(
            encode_outgoing(m@),
        ),
        r matches Err(IpcError::Frame(e)) ==> decode_frame_fails(buf@, e),
        r matches Err(IpcError::Malformed) ==> buf@.len() >= 4 && parse_outgoing(
            frame_payload(buf@),
        ) is None,
        (exists|m: OutgoingModel, rest: Seq<u8>|
            outgoing_wf(m) && encode_outgoing(m).len() <= MAX_FRAME_LEN && buf@ == frame_of(
                encode_outgoing(m),
            ) + rest) ==> r is Ok,
{
    proof {
        if exists|m: OutgoingModel, rest: Seq<u8>|
            outgoing_wf(m) && encode_outgoing(m).len() <= MAX_FRAME_LEN && buf@ == frame_of(
                encode_outgoing(m),
            ) + rest {
            let (m, rest) = choose|m: OutgoingModel, rest: Seq<u8>|
                outgoing_wf(m) && encode_outgoing(m).len() <= MAX_FRAME_LEN && buf@ == frame_of(
                    encode_outgoing(m),
                ) + rest;
            lemma_message_round_trip(m, rest);
        }
    }
    match decode_frame(buf) {
        Err(e) => Err(IpcError::Frame(e)),
        Ok((payload, used)) => {
            assert(payload@ == frame_payload(buf@));
            match Outgoing::decode(payload.as_slice()) {
                Some(m) => {
                    proof {
                        lemma_outgoing_round_trip(m@, payload@);
                    }
                    Ok((m, used))
                },
                None => Err(IpcError::Malformed),
            }
        },
    }
}

/// The payload that the length prefix at the front of `s` declares.
pub open spec fn frame_payload(s: Seq<u8>) -> Seq<u8> {
    s.subrange(4, 4 + crate::wire::from_le32(s[0], s[1], s[2], s[3]) as int)
}

/// The conditions under which reading a frame from `s` fails with `e`.
pub open spec fn decode_frame_fails(s: Seq<u8>, e: FrameError) -> bool {
    if s.len() < 4 {
        e == FrameError::Truncated
    } else {
        let n = crate::wire::from_le32(s[0], s[1], s[2], s[3]) as int;
        if n > MAX_FRAME_LEN {
            e == FrameError::SizeExceeded
        } else {
            e == FrameError::Truncated && s.len() < 4 + n
        }
    }
}

} // verus!
