use tango_core::framing::{decode_frame, encode_frame, frame_length, FrameError, MAX_FRAME_LEN};
use tango_core::ipc::{read_message, write_message, Incoming, IpcError, Outgoing};
use tango_core::protocol::{Input, Packet, State};

#[test]
fn frame_has_little_endian_prefix() {
    assert_eq!(encode_frame(&[7, 8, 9]).unwrap(), vec![3, 0, 0, 0, 7, 8, 9]);
}

#[test]
fn frame_round_trips() {
    let payload: Vec<u8> = (0..=255u8).collect();
    let mut buf = encode_frame(&payload).unwrap();
    buf.extend_from_slice(&[1, 2]);
    let (p, used) = decode_frame(&buf).unwrap();
    assert_eq!(p, payload);
    assert_eq!(used, 4 + 256);
}

#[test]
fn empty_frame_round_trips() {
    let buf = encode_frame(&[]).unwrap();
    assert_eq!(buf, vec![0, 0, 0, 0]);
    assert_eq!(decode_frame(&buf).unwrap(), (vec![], 4));
}

#[test]
fn length_at_bound_is_accepted() {
    assert_eq!(frame_length(&[0, 0, 0x10, 0]), Ok(MAX_FRAME_LEN));
}

#[test]
fn length_over_bound_is_refused() {
    assert_eq!(frame_length(&[1, 0, 0x10, 0]), Err(FrameError::SizeExceeded));
    assert_eq!(frame_length(&[0xff, 0xff, 0xff, 0xff]), Err(FrameError::SizeExceeded));
}

#[test]
fn oversized_declared_length_is_refused_before_payload() {
    // Only the prefix is present: the size is refused, not reported as truncated.
    assert_eq!(decode_frame(&[0xff, 0xff, 0xff, 0x7f]), Err(FrameError::SizeExceeded));
}

#[test]
fn oversized_payload_is_not_framed() {
    let payload = vec![0u8; MAX_FRAME_LEN + 1];
    assert_eq!(encode_frame(&payload), Err(FrameError::SizeExceeded));
}

#[test]
fn short_frames_are_truncated() {
    assert_eq!(decode_frame(&[1, 0]), Err(FrameError::Truncated));
    assert_eq!(decode_frame(&[3, 0, 0, 0, 1]), Err(FrameError::Truncated));
}

#[test]
fn battle_start_round_trips_through_frame() {
    let m = Outgoing::BattleStart { battle_number: 1, local_player_index: 0 };
    let buf = write_message(&m).unwrap();
    assert_eq!(buf, vec![6, 0, 0, 0, 1, 0, 0, 0, 1, 0]);
    assert_eq!(read_message(&buf), Ok((m, buf.len())));
}

#[test]
fn every_message_round_trips() {
    for m in [Outgoing::Running, Outgoing::BattleEnd, Outgoing::MatchEnd] {
        let buf = write_message(&m).unwrap();
        assert_eq!(read_message(&buf), Ok((m, 8)));
    }
}

#[test]
fn unknown_message_is_malformed() {
    assert_eq!(read_message(&[4, 0, 0, 0, 9, 0, 0, 0]), Err(IpcError::Malformed));
}

#[test]
fn short_message_frame_is_a_frame_error() {
    assert_eq!(read_message(&[6, 0, 0, 0, 1]), Err(IpcError::Frame(FrameError::Truncated)));
}

#[test]
fn message_decode_reads_fields() {
    assert_eq!(
        Outgoing::decode(&[1, 0, 0, 0, 4, 1]),
        Some(Outgoing::BattleStart { battle_number: 4, local_player_index: 1 })
    );
    assert_eq!(Outgoing::decode(&[0, 0, 0, 0, 0]), None);
}

#[test]
fn local_state_round_trips_through_frame() {
    let m = Outgoing::LocalState(vec![1, 2, 3]);
    let buf = write_message(&m).unwrap();
    assert_eq!(buf, vec![15, 0, 0, 0, 4, 0, 0, 0, 3, 0, 0, 0, 0, 0, 0, 0, 1, 2, 3]);
    assert_eq!(read_message(&buf), Ok((m, 19)));
}

#[test]
fn embedded_packet_round_trips_through_frame() {
    let p = Packet::Input(Input {
        battle_number: 3,
        local_tick: 120,
        remote_tick: 118,
        joyflags: 0x0041,
        custom_screen_state: 0,
        turn: vec![9],
    });
    let m = Outgoing::Packet(p.clone());
    let buf = write_message(&m).unwrap();
    let mut expected = vec![29, 0, 0, 0, 5, 0, 0, 0];
    expected.extend_from_slice(&p.serialize().unwrap());
    assert_eq!(buf, expected);
    assert_eq!(read_message(&buf), Ok((m, buf.len())));
}

#[test]
fn oversized_message_is_not_framed() {
    let m = Outgoing::LocalState(vec![0; MAX_FRAME_LEN]);
    assert_eq!(write_message(&m), Err(FrameError::SizeExceeded));
}

#[test]
fn incoming_packet_round_trips() {
    let m = Incoming::Packet(Packet::State(State { state: vec![4, 5] }));
    let bytes = m.encode();
    assert_eq!(bytes, vec![0, 0, 0, 0, 1, 0, 0, 0, 2, 0, 0, 0, 0, 0, 0, 0, 4, 5]);
    assert_eq!(Incoming::decode(&bytes), Some(m));
}

#[test]
fn incoming_with_bad_tag_or_packet_is_refused() {
    assert_eq!(Incoming::decode(&[1, 0, 0, 0, 1, 0, 0, 0, 0, 0, 0, 0, 0, 0, 0, 0]), None);
    assert_eq!(Incoming::decode(&[0, 0, 0, 0, 1, 0, 0]), None);
}
