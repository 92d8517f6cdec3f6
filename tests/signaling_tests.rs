use tango_core::hooks::{lookup, title, Game};
use tango_core::protocol::CodecError;
use tango_core::shadow::Shadow;
use tango_core::signaling::{decode_fields, Packet};

#[test]
fn every_signal_round_trips() {
    let packets = vec![
        Packet::Start {
            protocol_version: 0x0f,
            session_id: b"abc".to_vec(),
            offer_sdp: b"v=0".to_vec(),
        },
        Packet::Offer { sdp: b"v=0 o".to_vec() },
        Packet::Answer { sdp: b"v=0 a".to_vec() },
        Packet::IceCandidate { candidate: b"candidate:1".to_vec(), mid: b"0".to_vec() },
    ];
    for p in packets {
        let bytes = p.serialize().unwrap();
        assert_eq!(Packet::deserialize(&bytes).unwrap(), p);
    }
}

#[test]
fn offer_encoding() {
    let bytes = Packet::Offer { sdp: b"hi".to_vec() }.serialize().unwrap();
    assert_eq!(bytes, vec![1, 0, 0, 0, 2, 0, 0, 0, 0, 0, 0, 0, b'h', b'i']);
}

#[test]
fn invalid_utf8_text_is_malformed() {
    let bytes = Packet::Answer { sdp: vec![0xff, 0xfe] }.serialize().unwrap();
    assert_eq!(Packet::deserialize(&bytes), Err(CodecError::Malformed));
    assert_eq!(decode_fields(&bytes), Some(Packet::Answer { sdp: vec![0xff, 0xfe] }));
}

#[test]
fn oversized_signal_is_refused() {
    assert_eq!(Packet::deserialize(&vec![0u8; 1048577]), Err(CodecError::SizeLimit));
    let p = Packet::Offer { sdp: vec![b'a'; 1048576] };
    assert_eq!(p.serialize(), Err(CodecError::SizeLimit));
}

#[test]
fn supported_titles_are_found() {
    assert_eq!(lookup(b"MEGAMAN6_FXX"), Some(Game::Megaman6Fxx));
    assert_eq!(lookup(b"MEGAMAN6_GXX"), Some(Game::Megaman6Gxx));
    assert_eq!(lookup(b"ROCKEXE6_RXX"), Some(Game::Rockexe6Rxx));
    assert_eq!(lookup(b"ROCKEXE6_GXX"), Some(Game::Rockexe6Gxx));
    assert_eq!(title(Game::Rockexe6Gxx), b"ROCKEXE6_GXX".to_vec());
}

#[test]
fn unknown_title_is_not_found() {
    assert_eq!(lookup(b"MEGAMAN5_TP_"), None);
    assert_eq!(lookup(b""), None);
}

#[test]
fn shadow_keeps_its_setup() {
    let s = Shadow::new("bn6.gba".to_string(), Game::Megaman6Fxx, true);
    assert_eq!(s.get_game(), Game::Megaman6Fxx);
    assert!(s.get_is_offerer());
    assert_eq!(s.get_rom_path(), "bn6.gba");
}
