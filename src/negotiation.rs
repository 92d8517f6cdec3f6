//! Offer/answer negotiation over the rendezvous link, as a state machine.
//! The caller runs the loop: it feeds each event that the local peer
//! connection or the link produces to `Negotiator::step`, and performs
//! the actions returned, in order.
use vstd::prelude::*;

use crate::protocol::{CodecError, MAX_MESSAGE_LEN, VERSION};
use crate::signaling::{encode_signal, parse_signal, Packet, PacketModel};
use crate::wire::copy_bytes;

verus! {

/// The type of a session description to set.
#[derive(Debug, Clone, Copy, PartialEq, Eq, Structural)]
pub enum SdpKind {
    Offer,
    Answer,
    Rollback,
}

/// Which side of the exchange this peer turned out to be.
#[derive(Debug, Clone, Copy, PartialEq, Eq, Structural)]
pub enum Role {
    /// Received the peer's offer, rolled back its own and answered.
    Polite,
    /// Its offer won: it received the peer's answer.
    Impolite,
}

/// Why a negotiation was abandoned.
#[derive(Debug, Clone, Copy, PartialEq, Eq, Structural)]
pub enum NegotiationError {
    /// A packet could not be encoded or decoded.
    Codec(CodecError),
    /// The link delivered a `Start`, which only peers send.
    UnexpectedStart,
    /// The link delivered a message that is not binary.
    InvalidPacket,
    /// The link ended before the negotiation did.
    LinkEnded,
    /// The local connection's signals ended before the negotiation did.
    SignalsEnded,
    /// A local signal other than a candidate arrived after the offer.
    UnexpectedSignal,
    /// An event that the current phase does not expect.
    UnexpectedEvent,
    /// The native layer rejected a description or a candidate.
    Rejected,
}

#[derive(Debug, Clone, Copy, PartialEq, Eq, Structural)]
pub enum Phase {
    /// Waiting for local candidate gathering to complete.
    Gathering,
    /// `Start` sent; forwarding candidates and reading the link. The link
    /// is read only from here on: a link message while gathering fails.
    Exchanging,
    /// The peer's offer is applied; waiting for the local answer.
    Answering,
    /// Finished, in the given role.
    Done(Role),
    /// Abandoned; the caller starts over with a fresh session.
    Failed(NegotiationError),
}

/// What the local peer connection or the rendezvous link produced.
#[derive(Debug, Clone, PartialEq, Eq)]
pub enum Event {
    /// Candidate gathering completed; `local_sdp` is the local offer.
    GatheringComplete { local_sdp: Vec<u8> },
    /// A local candidate was gathered.
    LocalCandidate { candidate: Vec<u8>, mid: Vec<u8> },
    /// A local description was produced.
    LocalDescription { sdp: Vec<u8> },
    /// The local signal sequence ended.
    SignalsEnded,
    /// A binary message arrived on the link.
    Message(Vec<u8>),
    /// A message that is not binary arrived on the link.
    NonBinaryMessage,
    /// The link ended.
    LinkEnded,
    /// The local answer, read after the peer's offer was applied.
    AnswerReady { sdp: Vec<u8> },
    /// The native layer rejected the last description or candidate.
    Rejected,
}

/// What the caller must do.
#[derive(Debug, Clone, PartialEq, Eq)]
pub enum Action {
    /// Send these bytes as one binary message on the link.
    Send(Vec<u8>),
    /// Set the local description of this type.
    SetLocalDescription(SdpKind),
    /// Set the remote description.
    SetRemoteDescription { kind: SdpKind, sdp: Vec<u8> },
    /// Add a candidate of the peer.
    AddRemoteCandidate { candidate: Vec<u8>, mid: Vec<u8> },
    /// Read the local description and hand it back as `AnswerReady`.
    ReadLocalDescription,
    /// Close the link.
    CloseLink,
}

pub enum EventModel {
    GatheringComplete { local_sdp: Seq<u8> },
    LocalCandidate { candidate: Seq<u8>, mid: Seq<u8> },
    LocalDescription { sdp: Seq<u8> },
    SignalsEnded,
    Message(Seq<u8>),
    NonBinaryMessage,
    LinkEnded,
    AnswerReady { sdp: Seq<u8> },
    Rejected,
}

pub enum ActionModel {
    Send(Seq<u8>),
    SetLocalDescription(SdpKind),
    SetRemoteDescription { kind: SdpKind, sdp: Seq<u8> },
    AddRemoteCandidate { candidate: Seq<u8>, mid: Seq<u8> },
    ReadLocalDescription,
    CloseLink,
}

impl View for Event {
    type V = EventModel;

    open spec fn view(&self) -> EventModel {
        match self {
            Event::GatheringComplete { local_sdp } => EventModel::GatheringComplete {
                local_sdp: local_sdp@,
            },
            Event::LocalCandidate { candidate, mid } => EventModel::LocalCandidate {
                candidate: candidate@,
                mid: mid@,
            },
            Event::LocalDescription { sdp } => EventModel::LocalDescription { sdp: sdp@ },
            Event::SignalsEnded => EventModel::SignalsEnded,
            Event::Message(d) => EventModel::Message(d@),
            Event::NonBinaryMessage => EventModel::NonBinaryMessage,
            Event::LinkEnded => EventModel::LinkEnded,
            Event::AnswerReady { sdp } => EventModel::AnswerReady { sdp: sdp@ },
            Event::Rejected => EventModel::Rejected,
        }
    }
}

impl View for Action {
    type V = ActionModel;

    open spec fn view(&self) -> ActionModel {
        match self {
            Action::Send(d) => ActionModel::Send(d@),
            Action::SetLocalDescription(k) => ActionModel::SetLocalDescription(*k),
            Action::SetRemoteDescription { kind, sdp } => ActionModel::SetRemoteDescription {
                kind: *kind,
                sdp: sdp@,
            },
            Action::AddRemoteCandidate { candidate, mid } => ActionModel::AddRemoteCandidate {
                candidate: candidate@,
                mid: mid@,
            },
            Action::ReadLocalDescription => ActionModel::ReadLocalDescription,
            Action::CloseLink => ActionModel::CloseLink,
        }
    }
}

/// The views of a sequence of actions.
pub open spec fn action_views(s: Seq<Action>) -> Seq<ActionModel> {
    s.map_values(|a: Action| a@)
}

pub struct NegotiatorView {
    pub phase: Phase,
    pub session_id: Seq<u8>,
}

/// One side of a negotiation.
pub struct Negotiator {
    phase: Phase,
    session_id: Vec<u8>,
}

impl View for Negotiator {
    type V = NegotiatorView;

    closed spec fn view(&self) -> NegotiatorView {
        NegotiatorView { phase: self.phase, session_id: self.session_id@ }
    }
}

/// Sending `p`: its encoding, or a failure when it is too long.
pub open spec fn send_packet(p: PacketModel, ok: Phase) -> (Phase, Seq<ActionModel>) {
    if encode_signal(p).len() > MAX_MESSAGE_LEN {
        (Phase::Failed(NegotiationError::Codec(CodecError::SizeLimit)), seq![])
    } else {
        (ok, seq![ActionModel::Send(encode_signal(p))])
    }
}

/// What a message from the link does, before the negotiation has ended.
pub open spec fn link_message_step(phase: Phase, d: Seq<u8>) -> (Phase, Seq<ActionModel>) {
    if d.len() > MAX_MESSAGE_LEN {
        (Phase::Failed(NegotiationError::Codec(CodecError::SizeLimit)), seq![])
    } else {
        match parse_signal(d) {
            None => (Phase::Failed(NegotiationError::Codec(CodecError::Malformed)), seq![]),
            Some(PacketModel::Start { .. }) => (
                Phase::Failed(NegotiationError::UnexpectedStart),
                seq![],
            ),
            Some(PacketModel::Offer { sdp }) => (
                Phase::Answering,
                seq![
                    ActionModel::SetLocalDescription(SdpKind::Rollback),
                    ActionModel::SetRemoteDescription { kind: SdpKind::Offer, sdp },
                    ActionModel::ReadLocalDescription,
                ],
            ),
            Some(PacketModel::Answer { sdp }) => (
                Phase::Done(Role::Impolite),
                seq![
                    ActionModel::SetRemoteDescription { kind: SdpKind::Answer, sdp },
                    ActionModel::CloseLink,
                ],
            ),
            Some(PacketModel::IceCandidate { candidate, mid }) => (
                phase,
                seq![ActionModel::AddRemoteCandidate { candidate, mid }],
            ),
        }
    }
}

/// The next phase and the actions for event `e` in state `n`.
pub open spec fn next(n: NegotiatorView, e: EventModel) -> (Phase, Seq<ActionModel>) {
    match n.phase {
        Phase::Done(_) | Phase::Failed(_) => (n.phase, seq![]),
        Phase::Gathering | Phase::Exchanging => match e {
            EventModel::GatheringComplete { local_sdp } => if n.phase == Phase::Gathering {
                send_packet(
                    PacketModel::Start {
                        protocol_version: VERSION,
                        session_id: n.session_id,
                        offer_sdp: local_sdp,
                    },
                    Phase::Exchanging,
                )
            } else {
                (Phase::Failed(NegotiationError::UnexpectedSignal), seq![])
            },
            EventModel::LocalCandidate { candidate, mid } => if n.phase == Phase::Gathering {
                (n.phase, seq![])
            } else {
                send_packet(PacketModel::IceCandidate { candidate, mid }, n.phase)
            },
            EventModel::LocalDescription { .. } => if n.phase == Phase::Gathering {
                (n.phase, seq![])
            } else {
                (Phase::Failed(NegotiationError::UnexpectedSignal), seq![])
            },
            EventModel::SignalsEnded => (Phase::Failed(NegotiationError::SignalsEnded), seq![]),
            EventModel::Message(d) => if n.phase == Phase::Gathering {
                (Phase::Failed(NegotiationError::UnexpectedEvent), seq![])
            } else {
                link_message_step(n.phase, d)
            },
            EventModel::NonBinaryMessage => if n.phase == Phase::Gathering {
                (Phase::Failed(NegotiationError::UnexpectedEvent), seq![])
            } else {
                (Phase::Failed(NegotiationError::InvalidPacket), seq![])
            },
            EventModel::LinkEnded => (Phase::Failed(NegotiationError::LinkEnded), seq![]),
            EventModel::AnswerReady { .. } => (
                Phase::Failed(NegotiationError::UnexpectedEvent),
                seq![],
            ),
            EventModel::Rejected => (Phase::Failed(NegotiationError::Rejected), seq![]),
        },
        Phase::Answering => match e {
            EventModel::AnswerReady { sdp } => {
                let (p, a) = send_packet(PacketModel::Answer { sdp }, Phase::Done(Role::Polite));
                if p == Phase::Done(Role::Polite) {
                    (p, a.push(ActionModel::CloseLink))
                } else {
                    (p, a)
                }
            },
            EventModel::Rejected => (Phase::Failed(NegotiationError::Rejected), seq![]),
            _ => (Phase::Failed(NegotiationError::UnexpectedEvent), seq![]),
        },
    }
}

fn send_signal(p: Packet, ok: Phase) -> (r: (Phase, Vec<Action>))
    ensures
        (r.0, action_views(r.1@)) == send_packet(p@, ok),
{
    match p.serialize() {
        Ok(b) => {
            let mut v: Vec<Action> = Vec::new();
            v.push(Action::Send(b));
            assert(action_views(v@) =~= seq![ActionModel::Send(encode_signal(p@))]);
            (ok, v)
        },
        Err(_) => {
            let v: Vec<Action> = Vec::new();
            assert(action_views(v@) =~= seq![]);
            (Phase::Failed(NegotiationError::Codec(CodecError::SizeLimit)), v)
        },
    }
}

fn fail(e: NegotiationError) -> (r: (Phase, Vec<Action>))
    ensures
        r.0 == Phase::Failed(e),
        action_views(r.1@) == Seq::<ActionModel>::empty(),
{
    let v: Vec<Action> = Vec::new();
    assert(action_views(v@) =~= seq![]);
    (Phase::Failed(e), v)
}

fn handle_message(phase: Phase, d: &[u8]) -> (r: (Phase, Vec<Action>))
    ensures
        (r.0, action_views(r.1@)) == link_message_step(phase, d@),
{
    match Packet::deserialize(d) {
        Err(e) => fail(NegotiationError::Codec(e)),
        Ok(Packet::Start { .. }) => fail(NegotiationError::UnexpectedStart),
        Ok(Packet::Offer { sdp }) => {
            let ghost s = sdp@;
            let mut v: Vec<Action> = Vec::new();
            v.push(Action::SetLocalDescription(SdpKind::Rollback));
            v.push(Action::SetRemoteDescription { kind: SdpKind::Offer, sdp });
            v.push(Action::ReadLocalDescription);
            assert(action_views(v@) =~= seq![
                ActionModel::SetLocalDescription(SdpKind::Rollback),
                ActionModel::SetRemoteDescription { kind: SdpKind::Offer, sdp: s },
                ActionModel::ReadLocalDescription,
            ]);
            (Phase::Answering, v)
        },
        Ok(Packet::Answer { sdp }) => {
            let ghost s = sdp@;
            let mut v: Vec<Action> = Vec::new();
            v.push(Action::SetRemoteDescription { kind: SdpKind::Answer, sdp });
            v.push(Action::CloseLink);
            assert(action_views(v@) =~= seq![
                ActionModel::SetRemoteDescription { kind: SdpKind::Answer, sdp: s },
                ActionModel::CloseLink,
            ]);
            (Phase::Done(Role::Impolite), v)
        },
        Ok(Packet::IceCandidate { candidate, mid }) => {
            let ghost c = candidate@;
            let ghost m = mid@;
            let mut v: Vec<Action> = Vec::new();
            v.push(Action::AddRemoteCandidate { candidate, mid });
            assert(action_views(v@) =~= seq![
                ActionModel::AddRemoteCandidate { candidate: c, mid: m },
            ]);
            (phase, v)
        },
    }
}

impl Negotiator {
    /// A negotiation for `session_id`, waiting for gathering to complete.
    pub fn new(session_id: &[u8]) -> (r: Negotiator)
        ensures
            r@.phase == Phase::Gathering,
            r@.session_id == session_id@,
    {
        Negotiator { phase: Phase::Gathering, session_id: copy_bytes(session_id) }
    }

    pub fn phase(&self) -> (r: Phase)
        ensures
            r == self@.phase,
    {
        self.phase
    }

    /// Whether the negotiation has ended, done or failed.
    pub fn is_finished(&self) -> (r: bool)
        ensures
            r <==> (self@.phase is Done || self@.phase is Failed),
    {
        match self.phase {
            Phase::Done(_) | Phase::Failed(_) => true,
            _ => false,
        }
    }

    /// Takes one event and returns the actions to perform, in order.
    pub fn step(&mut self, e: Event) -> (r: Vec<Action>)
        ensures
            final(self)@.session_id == old(self)@.session_id,
            (final(self)@.phase, action_views(r@)) == next(old(self)@, e@),
    {
        let (p, v) = match self.phase {
            Phase::Done(_) | Phase::Failed(_) => {
                let v: Vec<Action> = Vec::new();
                assert(action_views(v@) =~= seq![]);
                (self.phase, v)
            },
            Phase::Gathering | Phase::Exchanging => match e {
                Event::GatheringComplete { local_sdp } => if self.phase == Phase::Gathering {
                    send_signal(
                        Packet::Start {
                            protocol_version: VERSION,
                            session_id: copy_bytes(self.session_id.as_slice()),
                            offer_sdp: local_sdp,
                        },
                        Phase::Exchanging,
                    )
                } else {
                    fail(NegotiationError::UnexpectedSignal)
                },
                Event::LocalCandidate { candidate, mid } => if self.phase == Phase::Gathering {
                    let v: Vec<Action> = Vec::new();
                    assert(action_views(v@) =~= seq![]);
                    (self.phase, v)
                } else {
                    send_signal(Packet::IceCandidate { candidate, mid }, self.phase)
                },
                Event::LocalDescription { .. } => if self.phase == Phase::Gathering {
                    let v: Vec<Action> = Vec::new();
                    assert(action_views(v@) =~= seq![]);
                    (self.phase, v)
                } else {
                    fail(NegotiationError::UnexpectedSignal)
                },
                Event::SignalsEnded => fail(NegotiationError::SignalsEnded),
                Event::Message(d) => if self.phase == Phase::Gathering {
                    fail(NegotiationError::UnexpectedEvent)
                } else {
                    handle_message(self.phase, d.as_slice())
                },
                Event::NonBinaryMessage => if self.phase == Phase::Gathering {
                    fail(NegotiationError::UnexpectedEvent)
                } else {
                    fail(NegotiationError::InvalidPacket)
                },
                Event::LinkEnded => fail(NegotiationError::LinkEnded),
                Event::AnswerReady { .. } => fail(NegotiationError::UnexpectedEvent),
                Event::Rejected => fail(NegotiationError::Rejected),
            },
            Phase::Answering => match e {
                Event::AnswerReady { sdp } => {
                    let (p, mut v) = send_signal(Packet::Answer { sdp }, Phase::Done(Role::Polite));
                    if p == Phase::Done(Role::Polite) {
                        let ghost before = v@;
                        v.push(Action::CloseLink);
                        assert(action_views(v@) =~= action_views(before).push(
                            ActionModel::CloseLink,
                        ));
                    }
                    (p, v)
                },
                Event::Rejected => fail(NegotiationError::Rejected),
                _ => fail(NegotiationError::UnexpectedEvent),
            },
        };
        self.phase = p;
        v
    }
}

/// The side that receives an offer rolls its own local description back
/// before it applies the offer, and the offer it applies is the one
/// received: in every step, a remote offer is set only right after a
/// rollback, and for a received `Offer` the step is exactly rollback, then
/// the offer's SDP as remote description.
pub proof fn lemma_offer_follows_rollback(n: NegotiatorView, e: EventModel)
    ensures
        ({
            let acts = next(n, e).1;
            forall|i: int|
                0 <= i < acts.len() && (#[trigger] acts[i] matches ActionModel::SetRemoteDescription {
                    kind,
                    ..
                } && kind == SdpKind::Offer) ==> i > 0 && acts[i - 1]
                    == ActionModel::SetLocalDescription(SdpKind::Rollback)
        }),
        n.phase == Phase::Exchanging ==> (e matches EventModel::Message(d) ==> (
        d.len() <= MAX_MESSAGE_LEN ==> (parse_signal(d) matches Some(PacketModel::Offer { sdp })
            ==> next(n, e).1.take(2) == seq![
            ActionModel::SetLocalDescription(SdpKind::Rollback),
            ActionModel::SetRemoteDescription { kind: SdpKind::Offer, sdp },
        ]))),
{
    let acts = next(n, e).1;
    if let EventModel::Message(d) = e {
        if let Some(PacketModel::Offer { sdp }) = parse_signal(d) {
            if n.phase == Phase::Exchanging && d.len() <= MAX_MESSAGE_LEN {
            assert(acts.take(2) =~= seq![
                ActionModel::SetLocalDescription(SdpKind::Rollback),
                ActionModel::SetRemoteDescription { kind: SdpKind::Offer, sdp },
            ]);
            }
        }
    }
}

/// A remote description is set at most once: once a peer's offer or
/// answer has been applied, no later event sets another.
pub proof fn lemma_remote_set_once(n: NegotiatorView, e: EventModel)
    requires
        !(n.phase == Phase::Gathering || n.phase == Phase::Exchanging),
    ensures
        forall|i: int|
            0 <= i < next(n, e).1.len() ==> !(next(n, e).1[i] is SetRemoteDescription),
{
}

/// Applying a remote description ends the exchange: a step that sets one
/// leaves `Gathering` and `Exchanging` behind.
pub proof fn lemma_remote_set_leaves_exchange(n: NegotiatorView, e: EventModel)
    ensures
        (exists|i: int| 0 <= i < next(n, e).1.len() && next(n, e).1[i] is SetRemoteDescription)
            ==> !(next(n, e).0 == Phase::Gathering || next(n, e).0 == Phase::Exchanging),
{
}

/// Nothing reaches the link before `Start`: while gathering, the only
/// action a step ever returns is the send of the `Start` packet that
/// carries this session and the local offer, and it comes only when
/// gathering completes.
pub proof fn lemma_start_comes_first(n: NegotiatorView, e: EventModel)
    requires
        n.phase == Phase::Gathering,
    ensures
        next(n, e).1.len() <= 1,
        next(n, e).1.len() == 1 ==> (e matches EventModel::GatheringComplete { local_sdp } && next(
            n,
            e,
        ).1[0] == ActionModel::Send(
            encode_signal(
                PacketModel::Start {
                    protocol_version: VERSION,
                    session_id: n.session_id,
                    offer_sdp: local_sdp,
                },
            ),
        ) && next(n, e).0 == Phase::Exchanging),
{
}

} // verus!
