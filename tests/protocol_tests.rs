use tango_core::protocol::{CodecError, Init, Input, Packet, State, MAX_MESSAGE_LEN, VERSION};

#[test]
fn version_is_fifteen() {
    assert_eq!(VERSION, 0x0f);
}

#[test]
fn init_round_trips() {
    let p = Packet::Init(Init { battle_number: 7, input_delay: 3, marshaled: vec![1, 2, 3, 4] });
    let bytes = p.serialize().unwrap();
    assert_eq!(Packet::deserialize(&bytes).unwrap(), p);
}

#[test]
fn state_round_trips() {
    let p = Packet::State(State { state: vec![9; 100] });
    let bytes = p.serialize().unwrap();
    assert_eq!(Packet::deserialize(&bytes).unwrap(), p);
}

#[test]
fn empty_state_round_trips() {
    let p = Packet::State(State { state: vec![] });
    let bytes = p.serialize().unwrap();
    assert_eq!(bytes, vec![1, 0, 0, 0, 0, 0, 0, 0, 0, 0, 0, 0]);
    assert_eq!(Packet::deserialize(&bytes).unwrap(), p);
}

#[test]
fn input_scenario_round_trips_within_bound() {
    let p = Packet::Input(Input {
        battle_number: 3,
        local_tick: 120,
        remote_tick: 118,
        joyflags: 0x0041,
        custom_screen_state: 0,
        turn: vec![],
    });
    let bytes = p.serialize().unwrap();
    assert!(bytes.len() <= MAX_MESSAGE_LEN);
    assert_eq!(
        bytes,
        vec![2, 0, 0, 0, 3, 120, 0, 0, 0, 118, 0, 0, 0, 0x41, 0, 0, 0, 0, 0, 0, 0, 0, 0, 0]
    );
    assert_eq!(Packet::deserialize(&bytes).unwrap(), p);
}

#[test]
fn init_encoding_is_fixed_width() {
    let p = Packet::Init(Init { battle_number: 1, input_delay: 0x01020304, marshaled: vec![0xaa] });
    assert_eq!(
        p.serialize().unwrap(),
        vec![0, 0, 0, 0, 1, 4, 3, 2, 1, 1, 0, 0, 0, 0, 0, 0, 0, 0xaa]
    );
}

#[test]
fn oversized_packet_is_refused() {
    let p = Packet::State(State { state: vec![0; MAX_MESSAGE_LEN] });
    assert_eq!(p.serialize(), Err(CodecError::SizeLimit));
}

#[test]
fn largest_state_fits() {
    let p = Packet::State(State { state: vec![5; MAX_MESSAGE_LEN - 12] });
    let bytes = p.serialize().unwrap();
    assert_eq!(bytes.len(), MAX_MESSAGE_LEN);
    assert_eq!(Packet::deserialize(&bytes).unwrap(), p);
}

#[test]
fn oversized_input_is_refused_on_decode() {
    let d = vec![0u8; MAX_MESSAGE_LEN + 1];
    assert_eq!(Packet::deserialize(&d), Err(CodecError::SizeLimit));
}

#[test]
fn truncated_packet_is_malformed() {
    let p = Packet::Init(Init { battle_number: 7, input_delay: 3, marshaled: vec![1, 2, 3, 4] });
    let bytes = p.serialize().unwrap();
    assert_eq!(Packet::deserialize(&bytes[..bytes.len() - 1]), Err(CodecError::Malformed));
    assert_eq!(Packet::deserialize(&[]), Err(CodecError::Malformed));
}

#[test]
fn unknown_variant_is_malformed() {
    assert_eq!(
        Packet::deserialize(&[3, 0, 0, 0, 0, 0, 0, 0, 0, 0, 0, 0]),
        Err(CodecError::Malformed)
    );
}

#[test]
fn trailing_bytes_are_malformed() {
    let mut bytes = Packet::State(State { state: vec![1] }).serialize().unwrap();
    bytes.push(0);
    assert_eq!(Packet::deserialize(&bytes), Err(CodecError::Malformed));
}

#[test]
fn declared_length_past_end_is_malformed() {
    assert_eq!(
        Packet::deserialize(&[1, 0, 0, 0, 0xff, 0xff, 0xff, 0xff, 0xff, 0xff, 0xff, 0xff]),
        Err(CodecError::Malformed)
    );
}
