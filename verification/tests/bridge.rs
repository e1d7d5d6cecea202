use vigil::bridge::{Bridge, BridgeAction, BridgeEvent, ReadOutcome, WriteOutcome};

fn written(bridge: &mut Bridge, sink: &mut Vec<u8>, count: usize) -> BridgeAction {
    sink.extend_from_slice(&bridge.pending()[..count]);
    bridge.step(BridgeEvent::PrimaryWritten(WriteOutcome::Written(count)))
}

#[test]
fn a_new_bridge_is_idle() {
    let bridge = Bridge::new();
    assert!(bridge.pending().is_empty());
    assert!(!bridge.is_write_armed());
    assert!(!bridge.is_closed());
}

#[test]
fn bytes_read_are_forwarded_unchanged() {
    let mut bridge = Bridge::new();
    let action = bridge.step(BridgeEvent::PrimaryRead(ReadOutcome::Data(b"ls\r\n".to_vec())));
    assert!(matches!(action, BridgeAction::Forward(bytes) if bytes == b"ls\r\n"));
    assert!(bridge.pending().is_empty());
    assert!(!bridge.is_closed());
}

#[test]
fn inbound_bytes_reach_the_terminal_in_order() {
    let mut bridge = Bridge::new();
    let mut sink = Vec::new();
    assert!(matches!(bridge.step(BridgeEvent::Inbound(vec![b'a'])), BridgeAction::ArmWrite));
    assert!(matches!(
        bridge.step(BridgeEvent::PrimaryRead(ReadOutcome::Data(vec![1, 2, 3]))),
        BridgeAction::Forward(_)
    ));
    assert!(matches!(bridge.step(BridgeEvent::Inbound(vec![b'b'])), BridgeAction::Wait));
    assert!(matches!(written(&mut bridge, &mut sink, 1), BridgeAction::Wait));
    assert!(matches!(
        bridge.step(BridgeEvent::PrimaryRead(ReadOutcome::WouldBlock)),
        BridgeAction::Wait
    ));
    assert!(matches!(bridge.step(BridgeEvent::Inbound(vec![b'c'])), BridgeAction::Wait));
    assert!(matches!(written(&mut bridge, &mut sink, 2), BridgeAction::DisarmWrite));
    assert_eq!(sink, vec![b'a', b'b', b'c']);
    assert!(bridge.pending().is_empty());
    assert!(!bridge.is_write_armed());
}

#[test]
fn a_partial_write_keeps_the_rest_pending() {
    let mut bridge = Bridge::new();
    bridge.step(BridgeEvent::Inbound(b"hello".to_vec()));
    assert!(bridge.is_write_armed());
    let action = bridge.step(BridgeEvent::PrimaryWritten(WriteOutcome::Written(2)));
    assert!(matches!(action, BridgeAction::Wait));
    assert_eq!(bridge.pending(), &b"llo".to_vec());
    assert!(bridge.is_write_armed());
    let action = bridge.step(BridgeEvent::PrimaryWritten(WriteOutcome::Written(9)));
    assert!(matches!(action, BridgeAction::DisarmWrite));
    assert!(bridge.pending().is_empty());
}

#[test]
fn blocked_reads_and_writes_change_nothing() {
    let mut bridge = Bridge::new();
    bridge.step(BridgeEvent::Inbound(b"x".to_vec()));
    assert!(matches!(
        bridge.step(BridgeEvent::PrimaryWritten(WriteOutcome::WouldBlock)),
        BridgeAction::Wait
    ));
    assert!(matches!(
        bridge.step(BridgeEvent::PrimaryRead(ReadOutcome::WouldBlock)),
        BridgeAction::Wait
    ));
    assert_eq!(bridge.pending(), &b"x".to_vec());
    assert!(bridge.is_write_armed());
    assert!(!bridge.is_closed());
}

#[test]
fn an_empty_drain_arms_nothing() {
    let mut bridge = Bridge::new();
    assert!(matches!(bridge.step(BridgeEvent::Inbound(Vec::new())), BridgeAction::Wait));
    assert!(!bridge.is_write_armed());
    assert!(matches!(
        bridge.step(BridgeEvent::PrimaryWritten(WriteOutcome::Written(0))),
        BridgeAction::Wait
    ));
}

#[test]
fn a_failed_read_closes_the_bridge() {
    let mut bridge = Bridge::new();
    bridge.step(BridgeEvent::Inbound(b"x".to_vec()));
    assert!(matches!(bridge.step(BridgeEvent::PrimaryRead(ReadOutcome::Failed)), BridgeAction::Close));
    assert!(bridge.is_closed());
    assert!(matches!(bridge.step(BridgeEvent::Inbound(b"y".to_vec())), BridgeAction::Wait));
    assert!(matches!(
        bridge.step(BridgeEvent::PrimaryRead(ReadOutcome::Data(b"z".to_vec()))),
        BridgeAction::Wait
    ));
    assert_eq!(bridge.pending(), &b"x".to_vec());
}

#[test]
fn a_failed_write_closes_the_bridge() {
    let mut bridge = Bridge::new();
    bridge.step(BridgeEvent::Inbound(b"x".to_vec()));
    assert!(matches!(
        bridge.step(BridgeEvent::PrimaryWritten(WriteOutcome::Failed)),
        BridgeAction::Close
    ));
    assert!(bridge.is_closed());
}

#[test]
fn a_shutdown_closes_the_bridge_once() {
    let mut bridge = Bridge::new();
    assert!(matches!(bridge.step(BridgeEvent::Shutdown), BridgeAction::Close));
    assert!(bridge.is_closed());
    assert!(matches!(bridge.step(BridgeEvent::Shutdown), BridgeAction::Wait));
}

#[test]
fn a_closed_inbound_channel_is_drained_before_the_close() {
    let mut bridge = Bridge::new();
    let mut sink = Vec::new();
    bridge.step(BridgeEvent::Inbound(b"abc".to_vec()));
    assert!(matches!(bridge.step(BridgeEvent::InboundClosed), BridgeAction::Wait));
    assert!(bridge.is_draining());
    assert!(!bridge.is_closed());
    assert!(bridge.is_write_armed());
    assert!(matches!(
        bridge.step(BridgeEvent::PrimaryRead(ReadOutcome::Data(b"out".to_vec()))),
        BridgeAction::Forward(_)
    ));
    assert!(matches!(
        bridge.step(BridgeEvent::PrimaryWritten(WriteOutcome::WouldBlock)),
        BridgeAction::Wait
    ));
    assert!(matches!(written(&mut bridge, &mut sink, 2), BridgeAction::Wait));
    assert!(!bridge.is_closed());
    assert!(matches!(written(&mut bridge, &mut sink, 1), BridgeAction::Close));
    assert!(bridge.is_closed());
    assert_eq!(sink, b"abc".to_vec());
    assert!(bridge.pending().is_empty());
}

#[test]
fn a_closed_inbound_channel_with_nothing_pending_closes_at_once() {
    let mut bridge = Bridge::new();
    assert!(matches!(bridge.step(BridgeEvent::InboundClosed), BridgeAction::Close));
    assert!(bridge.is_closed());
    assert!(bridge.is_draining());
}

#[test]
fn nothing_is_accepted_after_the_inbound_channel_is_closed() {
    let mut bridge = Bridge::new();
    bridge.step(BridgeEvent::Inbound(b"a".to_vec()));
    bridge.step(BridgeEvent::InboundClosed);
    assert!(matches!(bridge.step(BridgeEvent::Inbound(b"b".to_vec())), BridgeAction::Wait));
    assert_eq!(bridge.pending(), &b"a".to_vec());
}

#[test]
fn a_shutdown_drops_what_is_pending() {
    let mut bridge = Bridge::new();
    bridge.step(BridgeEvent::Inbound(b"a".to_vec()));
    assert!(matches!(bridge.step(BridgeEvent::Shutdown), BridgeAction::Close));
    assert!(matches!(
        bridge.step(BridgeEvent::PrimaryWritten(WriteOutcome::Written(1))),
        BridgeAction::Wait
    ));
    assert_eq!(bridge.pending(), &b"a".to_vec());
    assert!(bridge.is_closed());
}

#[test]
fn the_end_of_the_primary_side_closes_the_bridge() {
    let mut bridge = Bridge::new();
    assert!(matches!(bridge.step(BridgeEvent::PrimaryRead(ReadOutcome::Ended)), BridgeAction::Close));
    assert!(bridge.is_closed());
}
