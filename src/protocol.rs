//! The netplay payload protocol: the `Packet` variants exchanged over an
//! open data channel, and their fixed-width wire encoding.
use vstd::prelude::*;

use crate::wire::{
    enc_bytes, get_bytes, get_u16, get_u32, get_u8, le16, le32, lemma_take_bytes,
    lemma_take_bytes_inv, lemma_take_u16, lemma_take_u16_inv, lemma_take_u32, lemma_take_u32_inv,
    lemma_take_u8, lemma_take_u8_inv, put_bytes, put_u16, put_u32, put_u8, take_bytes, take_u16,
    take_u32, take_u8,
};

verus! {

/// Protocol version; peers must agree on it exactly.
pub const VERSION: u8 = 0x0f;

/// Largest encoded message, in bytes (1 MiB).
pub const MAX_MESSAGE_LEN: usize = 1048576;

/// Why an encoding or a decoding failed.
#[derive(Debug, Clone, Copy, PartialEq, Eq, Structural)]
pub enum CodecError {
    /// The message is, or would be, longer than `MAX_MESSAGE_LEN`.
    SizeLimit,
    /// The bytes are not the encoding of any message.
    Malformed,
}

#[derive(Clone, Debug, PartialEq, Eq)]
pub struct Init {
    pub battle_number: u8,
    pub input_delay: u32,
    pub marshaled: Vec<u8>,
}

#[derive(Clone, Debug, PartialEq, Eq)]
pub struct State {
    pub state: Vec<u8>,
}

#[derive(Clone, Debug, PartialEq, Eq)]
pub struct Input {
    pub battle_number: u8,
    pub local_tick: u32,
    pub remote_tick: u32,
    pub joyflags: u16,
    pub custom_screen_state: u8,
    pub turn: Vec<u8>,
}

#[derive(Clone, Debug, PartialEq, Eq)]
pub enum Packet {
    Init(Init),
    State(State),
    Input(Input),
}

pub struct InitModel {
    pub battle_number: u8,
    pub input_delay: u32,
    pub marshaled: Seq<u8>,
}

pub struct StateModel {
    pub state: Seq<u8>,
}

pub struct InputModel {
    pub battle_number: u8,
    pub local_tick: u32,
    pub remote_tick: u32,
    pub joyflags: u16,
    pub custom_screen_state: u8,
    pub turn: Seq<u8>,
}

/// A `Packet` as a mathematical value.
pub enum PacketModel {
    Init(InitModel),
    State(StateModel),
    Input(InputModel),
}

impl View for Init {
    type V = InitModel;

    open spec fn view(&self) -> InitModel {
        InitModel {
            battle_number: self.battle_number,
            input_delay: self.input_delay,
            marshaled: self.marshaled@,
        }
    }
}

impl View for State {
    type V = StateModel;

    open spec fn view(&self) -> StateModel {
        StateModel { state: self.state@ }
    }
}

impl View for Input {
    type V = InputModel;

    open spec fn view(&self) -> InputModel {
        InputModel {
            battle_number: self.battle_number,
            local_tick: self.local_tick,
            remote_tick: self.remote_tick,
            joyflags: self.joyflags,
            custom_screen_state: self.custom_screen_state,
            turn: self.turn@,
        }
    }
}

impl View for Packet {
    type V = PacketModel;

    open spec fn view(&self) -> PacketModel {
        match self {
            Packet::Init(i) => PacketModel::Init(i@),
            Packet::State(s) => PacketModel::State(s@),
            Packet::Input(i) => PacketModel::Input(i@),
        }
    }
}

/// Every byte string of the packet has a length that a `u64` can hold
/// (true of every `Packet` value).
pub open spec fn packet_wf(p: PacketModel) -> bool {
    match p {
        PacketModel::Init(i) => i.marshaled.len() <= u64::MAX,
        PacketModel::State(s) => s.state.len() <= u64::MAX,
        PacketModel::Input(i) => i.turn.len() <= u64::MAX,
    }
}

/// The encoding of a packet: the variant's index as a `u32`, then the
/// fields in order, each at its fixed width, byte strings length-prefixed.
pub open spec fn encode_packet(p: PacketModel) -> Seq<u8> {
    match p {
        PacketModel::Init(i) => le32(0) + (seq![i.battle_number] + (le32(i.input_delay)
            + enc_bytes(i.marshaled))),
        PacketModel::State(s) => le32(1) + enc_bytes(s.state),
        PacketModel::Input(i) => le32(2) + (seq![i.battle_number] + (le32(i.local_tick) + (le32(
            i.remote_tick,
        ) + (le16(i.joyflags) + (seq![i.custom_screen_state] + enc_bytes(i.turn)))))),
    }
}

pub open spec fn parse_init(s: Seq<u8>) -> Option<InitModel> {
    match take_u8(s) {
        Some((battle_number, r1)) => match take_u32(r1) {
            Some((input_delay, r2)) => match take_bytes(r2) {
                Some((marshaled, r3)) => if r3.len() == 0 {
                    Some(InitModel { battle_number, input_delay, marshaled })
                } else {
                    None
                },
                None => None,
            },
            None => None,
        },
        None => None,
    }
}

pub open spec fn parse_state(s: Seq<u8>) -> Option<StateModel> {
    match take_bytes(s) {
        Some((state, r)) => if r.len() == 0 {
            Some(StateModel { state })
        } else {
            None
        },
        None => None,
    }
}

pub open spec fn parse_input(s: Seq<u8>) -> Option<InputModel> {
    match take_u8(s) {
        Some((battle_number, r1)) => match take_u32(r1) {
            Some((local_tick, r2)) => match take_u32(r2) {
                Some((remote_tick, r3)) => match take_u16(r3) {
                    Some((joyflags, r4)) => match take_u8(r4) {
                        Some((custom_screen_state, r5)) => match take_bytes(r5) {
                            Some((turn, r6)) => if r6.len() == 0 {
                                Some(
                                    InputModel {
                                        battle_number,
                                        local_tick,
                                        remote_tick,
                                        joyflags,
                                        custom_screen_state,
                                        turn,
                                    },
                                )
                            } else {
                                None
                            },
                            None => None,
                        },
                        None => None,
                    },
                    None => None,
                },
                None => None,
            },
            None => None,
        },
        None => None,
    }
}

/// Reads a whole packet; `None` unless `s` is exactly one encoded packet.
pub open spec fn parse_packet(s: Seq<u8>) -> Option<PacketModel> {
    match take_u32(s) {
        Some((tag, r)) => if tag == 0 {
            match parse_init(r) {
                Some(i) => Some(PacketModel::Init(i)),
                None => None,
            }
        } else if tag == 1 {
            match parse_state(r) {
                Some(st) => Some(PacketModel::State(st)),
                None => None,
            }
        } else if tag == 2 {
            match parse_input(r) {
                Some(i) => Some(PacketModel::Input(i)),
                None => None,
            }
        } else {
            None
        },
        None => None,
    }
}

/// Decoding an encoded packet gives back the same packet, for every variant.
pub proof fn lemma_packet_round_trip(p: PacketModel)
    requires
        packet_wf(p),
    ensures
        parse_packet(encode_packet(p)) == Some(p),
{
    let e = Seq::<u8>::empty();
    match p {
        PacketModel::Init(i) => {
            lemma_take_bytes(i.marshaled, e);
            assert(enc_bytes(i.marshaled) + e =~= enc_bytes(i.marshaled));
            lemma_take_u32(i.input_delay, enc_bytes(i.marshaled));
            lemma_take_u8(i.battle_number, le32(i.input_delay) + enc_bytes(i.marshaled));
            lemma_take_u32(
                0,
                seq![i.battle_number] + (le32(i.input_delay) + enc_bytes(i.marshaled)),
            );
        },
        PacketModel::State(s) => {
            lemma_take_bytes(s.state, e);
            assert(enc_bytes(s.state) + e =~= enc_bytes(s.state));
            lemma_take_u32(1, enc_bytes(s.state));
        },
        PacketModel::Input(i) => {
            let s5 = enc_bytes(i.turn);
            let s4 = seq![i.custom_screen_state] + s5;
            let s3 = le16(i.joyflags) + s4;
            let s2 = le32(i.remote_tick) + s3;
            let s1 = le32(i.local_tick) + s2;
            let s0 = seq![i.battle_number] + s1;
            lemma_take_bytes(i.turn, e);
            assert(s5 + e =~= s5);
            lemma_take_u8(i.custom_screen_state, s5);
            lemma_take_u16(i.joyflags, s4);
            lemma_take_u32(i.remote_tick, s3);
            lemma_take_u32(i.local_tick, s2);
            lemma_take_u8(i.battle_number, s1);
            lemma_take_u32(2, s0);
        },
    }
}

/// Only an encoded packet decodes: what `parse_packet` accepts is the
/// encoding of what it returns.
pub proof fn lemma_parse_packet_sound(s: Seq<u8>)
    ensures
        parse_packet(s) matches Some(p) ==> packet_wf(p) && s == encode_packet(p),
{
    lemma_take_u32_inv(s);
    if let Some((tag, r)) = take_u32(s) {
        lemma_take_u8_inv(r);
        lemma_take_bytes_inv(r);
        if let Some((_b, r1)) = take_u8(r) {
            lemma_take_u32_inv(r1);
            if let Some((_d, r2)) = take_u32(r1) {
                lemma_take_bytes_inv(r2);
                lemma_take_u32_inv(r2);
                if let Some((_m, r3)) = take_bytes(r2) {
                    assert(r3.len() == 0 ==> r3 =~= Seq::<u8>::empty());
                    assert(r3.len() == 0 ==> r2 =~= enc_bytes(_m));
                }
                if let Some((_t, r3)) = take_u32(r2) {
                    lemma_take_u16_inv(r3);
                    if let Some((_j, r4)) = take_u16(r3) {
                        lemma_take_u8_inv(r4);
                        if let Some((_c, r5)) = take_u8(r4) {
                            lemma_take_bytes_inv(r5);
                            if let Some((_m, r6)) = take_bytes(r5) {
                                assert(r6.len() == 0 ==> r5 =~= enc_bytes(_m));
                            }
                        }
                    }
                }
            }
        }
        if let Some((_m, r1)) = take_bytes(r) {
            assert(r1.len() == 0 ==> r =~= enc_bytes(_m));
        }
    }
}

fn decode_init(d: &[u8], pos: usize) -> (r: Option<Init>)
    requires
        pos <= d@.len(),
    ensures
        r is None <==> parse_init(d@.skip(pos as int)) is None,
        r matches Some(i) ==> parse_init(d@.skip(pos as int)) == Some(i@),
{
    let (battle_number, p1) = match get_u8(d, pos) {
        Some(x) => x,
        None => return None,
    };
    let (input_delay, p2) = match get_u32(d, p1) {
        Some(x) => x,
        None => return None,
    };
    let (marshaled, p3) = match get_bytes(d, p2) {
        Some(x) => x,
        None => return None,
    };
    if p3 != d.len() {
        return None;
    }
    Some(Init { battle_number, input_delay, marshaled })
}

fn decode_state(d: &[u8], pos: usize) -> (r: Option<State>)
    requires
        pos <= d@.len(),
    ensures
        r is None <==> parse_state(d@.skip(pos as int)) is None,
        r matches Some(s) ==> parse_state(d@.skip(pos as int)) == Some(s@),
{
    let (state, p1) = match get_bytes(d, pos) {
        Some(x) => x,
        None => return None,
    };
    if p1 != d.len() {
        return None;
    }
    Some(State { state })
}

fn decode_input(d: &[u8], pos: usize) -> (r: Option<Input>)
    requires
        pos <= d@.len(),
    ensures
        r is None <==> parse_input(d@.skip(pos as int)) is None,
        r matches Some(i) ==> parse_input(d@.skip(pos as int)) == Some(i@),
{
    let (battle_number, p1) = match get_u8(d, pos) {
        Some(x) => x,
        None => return None,
    };
    let (local_tick, p2) = match get_u32(d, p1) {
        Some(x) => x,
        None => return None,
    };
    let (remote_tick, p3) = match get_u32(d, p2) {
        Some(x) => x,
        None => return None,
    };
    let (joyflags, p4) = match get_u16(d, p3) {
        Some(x) => x,
        None => return None,
    };
    let (custom_screen_state, p5) = match get_u8(d, p4) {
        Some(x) => x,
        None => return None,
    };
    let (turn, p6) = match get_bytes(d, p5) {
        Some(x) => x,
        None => return None,
    };
    if p6 != d.len() {
        return None;
    }
    Some(Input { battle_number, local_tick, remote_tick, joyflags, custom_screen_state, turn })
}

impl Packet {
    /// Appends the packet's encoding to `out`.
    pub fn encode_into(&self, out: &mut Vec<u8>)
        ensures
            final(out)@ == old(out)@ + encode_packet(self@),
    {
        let ghost start = out@;
        match self {
            Packet::Init(i) => {
                put_u32(out, 0);
                put_u8(out, i.battle_number);
                put_u32(out, i.input_delay);
                put_bytes(out, i.marshaled.as_slice());
            },
            Packet::State(s) => {
                put_u32(out, 1);
                put_bytes(out, s.state.as_slice());
            },
            Packet::Input(i) => {
                put_u32(out, 2);
                put_u8(out, i.battle_number);
                put_u32(out, i.local_tick);
                put_u32(out, i.remote_tick);
                put_u16(out, i.joyflags);
                put_u8(out, i.custom_screen_state);
                put_bytes(out, i.turn.as_slice());
            },
        }
        assert(out@ =~= start + encode_packet(self@));
    }

    /// Encodes the packet; fails only when the encoding would exceed
    /// `MAX_MESSAGE_LEN`.
    pub fn serialize(&self) -> (r: Result<Vec<u8>, CodecError>)
        ensures
            r matches Ok(v) ==> v@ == encode_packet(self@) && v@.len() <= MAX_MESSAGE_LEN,
            r matches Err(e) ==> e == CodecError::SizeLimit && encode_packet(self@).len()
                > MAX_MESSAGE_LEN,
    {
        let too_long = match self {
            Packet::Init(i) => i.marshaled.len() > MAX_MESSAGE_LEN - 17,
            Packet::State(s) => s.state.len() > MAX_MESSAGE_LEN - 12,
            Packet::Input(i) => i.turn.len() > MAX_MESSAGE_LEN - 24,
        };
        if too_long {
            return Err(CodecError::SizeLimit);
        }
        let mut out: Vec<u8> = Vec::new();
        self.encode_into(&mut out);
        assert(out@ =~= encode_packet(self@));
        Ok(out)
    }

    /// Reads one packet that makes up all of `d` from `pos` on, with no
    /// bound on its length.
    pub fn decode_at(d: &[u8], pos: usize) -> (r: Option<Packet>)
        requires
            pos <= d@.len(),
        ensures
            r is None <==> parse_packet(d@.skip(pos as int)) is None,
            r matches Some(p) ==> parse_packet(d@.skip(pos as int)) == Some(p@),
    {
        let (tag, p) = match get_u32(d, pos) {
            Some(x) => x,
            None => return None,
        };
        if tag == 0 {
            match decode_init(d, p) {
                Some(i) => Some(Packet::Init(i)),
                None => None,
            }
        } else if tag == 1 {
            match decode_state(d, p) {
                Some(s) => Some(Packet::State(s)),
                None => None,
            }
        } else if tag == 2 {
            match decode_input(d, p) {
                Some(i) => Some(Packet::Input(i)),
                None => None,
            }
        } else {
            None
        }
    }

    /// Decodes one packet from exactly the bytes of `d`.
    pub fn deserialize(d: &[u8]) -> (r: Result<Packet, CodecError>)
        ensures
            r matches Ok(p) ==> d@.len() <= MAX_MESSAGE_LEN && parse_packet(d@) == Some(p@)
                && d@ == encode_packet(p@),
            r matches Err(e) ==> (e == CodecError::SizeLimit <==> d@.len() > MAX_MESSAGE_LEN),
            r matches Err(e) ==> (e == CodecError::Malformed ==> parse_packet(d@) is None
                && forall|q: PacketModel| packet_wf(q) ==> encode_packet(q) != d@),
    {
        if d.len() > MAX_MESSAGE_LEN {
            return Err(CodecError::SizeLimit);
        }
        assert(d@.skip(0) =~= d@);
        proof {
            lemma_parse_packet_sound(d@);
            assert forall|q: PacketModel| packet_wf(q) && parse_packet(d@) is None implies encode_packet(q) != d@ by {
                lemma_packet_round_trip(q);
            }
        }
        match Packet::decode_at(d, 0) {
            Some(p) => Ok(p),
            None => Err(CodecError::Malformed),
        }
    }
}

} // verus!
