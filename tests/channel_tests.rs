use tango_core::channel::{ChannelState, Delivery, DataChannelError, OpenPhase, SendStep, Slot};

#[test]
fn fresh_channel_waits() {
    let s = ChannelState::new();
    assert_eq!(s.phase(), OpenPhase::Pending);
    assert_eq!(s.send_step(), SendStep::Wait);
}

#[test]
fn open_channel_writes() {
    let mut s = ChannelState::new();
    s.on_open();
    assert_eq!(s.send_step(), SendStep::Write);
    s.on_closed();
    assert_eq!(s.phase(), OpenPhase::Open);
}

#[test]
fn close_before_open_fails_with_closed() {
    let mut s = ChannelState::new();
    s.on_closed();
    assert_eq!(s.send_step(), SendStep::Fail(DataChannelError::Closed));
    s.on_open();
    assert_eq!(s.send_step(), SendStep::Fail(DataChannelError::Closed));
}

#[test]
fn error_is_sticky_even_when_open() {
    let mut s = ChannelState::new();
    s.on_open();
    s.on_error("ice failed".to_string());
    let e = SendStep::Fail(DataChannelError::UnderlyingError("ice failed".to_string()));
    assert_eq!(s.send_step(), e);
    s.on_error("later".to_string());
    s.on_open();
    assert_eq!(s.send_step(), e);
    assert_eq!(s.error(), Some("ice failed".to_string()));
}

#[test]
fn error_before_open_wins_over_wait() {
    let mut s = ChannelState::new();
    s.on_error("reset".to_string());
    assert_eq!(
        s.send_step(),
        SendStep::Fail(DataChannelError::UnderlyingError("reset".to_string()))
    );
}

#[test]
fn slot_drops_when_full() {
    let mut slot: Slot<u32> = Slot::new();
    assert!(slot.offer(1));
    assert!(!slot.offer(2));
    assert_eq!(slot.take(), Some(1));
    assert_eq!(slot.take(), None);
    assert!(slot.offer(3));
    assert_eq!(slot.take(), Some(3));
}

#[test]
fn receive_takes_item_then_ends_when_closed() {
    let mut slot: Slot<u32> = Slot::new();
    assert!(matches!(slot.receive_step(false), Delivery::Wait));
    slot.offer(7);
    assert!(matches!(slot.receive_step(true), Delivery::Item(7)));
    assert!(matches!(slot.receive_step(true), Delivery::Ended));
}
