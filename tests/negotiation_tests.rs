use tango_core::negotiation::{Action, Event, NegotiationError, Negotiator, Phase, Role, SdpKind};
use tango_core::protocol::CodecError;
use tango_core::signaling::Packet;

fn sent(actions: &[Action]) -> Vec<u8> {
    match &actions[0] {
        Action::Send(b) => b.clone(),
        other => panic!("expected a send, got {:?}", other),
    }
}

/// What the rendezvous server does with a `Start`: it hands the offer to
/// the other peer.
fn relay_start_as_offer(start: &[u8]) -> Vec<u8> {
    match Packet::deserialize(start).unwrap() {
        Packet::Start { offer_sdp, .. } => Packet::Offer { sdp: offer_sdp }.serialize().unwrap(),
        other => panic!("expected a start, got {:?}", other),
    }
}

#[test]
fn scenario_answer_makes_offerer_impolite() {
    let mut x = Negotiator::new(b"abc");
    let mut y = Negotiator::new(b"abc");

    let a = x.step(Event::GatheringComplete { local_sdp: b"v=0 offer".to_vec() });
    assert_eq!(a.len(), 1);
    let start = sent(&a);
    assert_eq!(
        Packet::deserialize(&start).unwrap(),
        Packet::Start {
            protocol_version: 0x0f,
            session_id: b"abc".to_vec(),
            offer_sdp: b"v=0 offer".to_vec(),
        }
    );
    assert_eq!(x.phase(), Phase::Exchanging);

    // Y's own Start has gone to the server, which paired it after X's and
    // so hands X's offer to Y.
    let _ = sent(&y.step(Event::GatheringComplete { local_sdp: b"v=0 y".to_vec() }));
    let a = y.step(Event::Message(relay_start_as_offer(&start)));
    assert_eq!(
        a,
        vec![
            Action::SetLocalDescription(SdpKind::Rollback),
            Action::SetRemoteDescription { kind: SdpKind::Offer, sdp: b"v=0 offer".to_vec() },
            Action::ReadLocalDescription,
        ]
    );
    let a = y.step(Event::AnswerReady { sdp: b"v=0 ans".to_vec() });
    assert_eq!(a.len(), 2);
    assert_eq!(a[1], Action::CloseLink);
    let answer = sent(&a);
    assert_eq!(Packet::deserialize(&answer).unwrap(), Packet::Answer { sdp: b"v=0 ans".to_vec() });
    assert_eq!(y.phase(), Phase::Done(Role::Polite));

    let a = x.step(Event::Message(answer));
    assert_eq!(
        a,
        vec![
            Action::SetRemoteDescription { kind: SdpKind::Answer, sdp: b"v=0 ans".to_vec() },
            Action::CloseLink,
        ]
    );
    assert_eq!(x.phase(), Phase::Done(Role::Impolite));
    assert!(x.is_finished() && y.is_finished());
}

#[test]
fn scenario_crossed_offers_both_answer_once() {
    let mut x = Negotiator::new(b"s");
    let mut y = Negotiator::new(b"s");
    let sx = sent(&x.step(Event::GatheringComplete { local_sdp: b"offer-x".to_vec() }));
    let sy = sent(&y.step(Event::GatheringComplete { local_sdp: b"offer-y".to_vec() }));

    let ax = x.step(Event::Message(relay_start_as_offer(&sy)));
    let ay = y.step(Event::Message(relay_start_as_offer(&sx)));
    assert_eq!(ax[0], Action::SetLocalDescription(SdpKind::Rollback));
    assert_eq!(
        ax[1],
        Action::SetRemoteDescription { kind: SdpKind::Offer, sdp: b"offer-y".to_vec() }
    );
    assert_eq!(ay[0], Action::SetLocalDescription(SdpKind::Rollback));
    assert_eq!(
        ay[1],
        Action::SetRemoteDescription { kind: SdpKind::Offer, sdp: b"offer-x".to_vec() }
    );

    let bx = x.step(Event::AnswerReady { sdp: b"answer-x".to_vec() });
    let by = y.step(Event::AnswerReady { sdp: b"answer-y".to_vec() });
    assert_eq!(x.phase(), Phase::Done(Role::Polite));
    assert_eq!(y.phase(), Phase::Done(Role::Polite));
    assert_eq!(bx.len(), 2);
    assert_eq!(by.len(), 2);

    // Nothing applies a second remote description once done.
    let late = x.step(Event::Message(sent(&by)));
    assert!(late.is_empty());
    assert_eq!(x.phase(), Phase::Done(Role::Polite));
}

#[test]
fn first_offer_processed_wins() {
    let mut y = Negotiator::new(b"s");
    y.step(Event::GatheringComplete { local_sdp: b"mine".to_vec() });
    let first = Packet::Offer { sdp: b"first".to_vec() }.serialize().unwrap();
    let second = Packet::Offer { sdp: b"second".to_vec() }.serialize().unwrap();
    let a = y.step(Event::Message(first));
    assert_eq!(a[0], Action::SetLocalDescription(SdpKind::Rollback));
    assert_eq!(a[1], Action::SetRemoteDescription { kind: SdpKind::Offer, sdp: b"first".to_vec() });
    let b = y.step(Event::Message(second));
    assert!(b.is_empty());
    assert_eq!(y.phase(), Phase::Failed(NegotiationError::UnexpectedEvent));
}

#[test]
fn candidates_flow_both_ways() {
    let mut x = Negotiator::new(b"s");
    assert!(x.step(Event::LocalCandidate { candidate: b"early".to_vec(), mid: b"0".to_vec() })
        .is_empty());
    x.step(Event::GatheringComplete { local_sdp: b"o".to_vec() });
    let a = x.step(Event::LocalCandidate { candidate: b"cand".to_vec(), mid: b"0".to_vec() });
    assert_eq!(
        Packet::deserialize(&sent(&a)).unwrap(),
        Packet::IceCandidate { candidate: b"cand".to_vec(), mid: b"0".to_vec() }
    );
    let remote = Packet::IceCandidate { candidate: b"rc".to_vec(), mid: b"1".to_vec() };
    let a = x.step(Event::Message(remote.serialize().unwrap()));
    assert_eq!(
        a,
        vec![Action::AddRemoteCandidate { candidate: b"rc".to_vec(), mid: b"1".to_vec() }]
    );
    assert_eq!(x.phase(), Phase::Exchanging);
}

#[test]
fn unexpected_start_fails() {
    let mut x = Negotiator::new(b"s");
    x.step(Event::GatheringComplete { local_sdp: b"o".to_vec() });
    let start = Packet::Start {
        protocol_version: 0x0f,
        session_id: b"s".to_vec(),
        offer_sdp: b"o".to_vec(),
    };
    assert!(x.step(Event::Message(start.serialize().unwrap())).is_empty());
    assert_eq!(x.phase(), Phase::Failed(NegotiationError::UnexpectedStart));
}

#[test]
fn link_failures_fail() {
    let mut a = Negotiator::new(b"s");
    a.step(Event::GatheringComplete { local_sdp: b"o".to_vec() });
    a.step(Event::LinkEnded);
    assert_eq!(a.phase(), Phase::Failed(NegotiationError::LinkEnded));

    let mut b = Negotiator::new(b"s");
    b.step(Event::GatheringComplete { local_sdp: b"o".to_vec() });
    b.step(Event::NonBinaryMessage);
    assert_eq!(b.phase(), Phase::Failed(NegotiationError::InvalidPacket));

    let mut c = Negotiator::new(b"s");
    c.step(Event::GatheringComplete { local_sdp: b"o".to_vec() });
    c.step(Event::Message(vec![9, 9]));
    assert_eq!(c.phase(), Phase::Failed(NegotiationError::Codec(CodecError::Malformed)));

    let mut d = Negotiator::new(b"s");
    d.step(Event::GatheringComplete { local_sdp: b"o".to_vec() });
    d.step(Event::Message(vec![0; 1048577]));
    assert_eq!(d.phase(), Phase::Failed(NegotiationError::Codec(CodecError::SizeLimit)));
}

#[test]
fn signal_failures_fail() {
    let mut a = Negotiator::new(b"s");
    a.step(Event::SignalsEnded);
    assert_eq!(a.phase(), Phase::Failed(NegotiationError::SignalsEnded));

    let mut b = Negotiator::new(b"s");
    b.step(Event::GatheringComplete { local_sdp: b"o".to_vec() });
    b.step(Event::LocalDescription { sdp: b"o".to_vec() });
    assert_eq!(b.phase(), Phase::Failed(NegotiationError::UnexpectedSignal));

    let mut c = Negotiator::new(b"s");
    c.step(Event::GatheringComplete { local_sdp: b"o".to_vec() });
    c.step(Event::Rejected);
    assert_eq!(c.phase(), Phase::Failed(NegotiationError::Rejected));

    let mut d = Negotiator::new(b"s");
    d.step(Event::AnswerReady { sdp: b"a".to_vec() });
    assert_eq!(d.phase(), Phase::Failed(NegotiationError::UnexpectedEvent));
}

#[test]
fn oversized_offer_fails_to_send() {
    let mut a = Negotiator::new(b"s");
    let acts = a.step(Event::GatheringComplete { local_sdp: vec![b'a'; 1048576] });
    assert!(acts.is_empty());
    assert_eq!(a.phase(), Phase::Failed(NegotiationError::Codec(CodecError::SizeLimit)));
}

#[test]
fn link_message_before_start_fails() {
    let offer = Packet::Offer { sdp: b"early".to_vec() }.serialize().unwrap();
    let mut a = Negotiator::new(b"s");
    assert!(a.step(Event::Message(offer)).is_empty());
    assert_eq!(a.phase(), Phase::Failed(NegotiationError::UnexpectedEvent));

    let mut b = Negotiator::new(b"s");
    assert!(b.step(Event::NonBinaryMessage).is_empty());
    assert_eq!(b.phase(), Phase::Failed(NegotiationError::UnexpectedEvent));
}
