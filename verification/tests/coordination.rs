//! Tests of the command bus, response slots, event bus and stream
//! manager.

use uplink_core::bus::CommandBus;
use uplink_core::commands::{ConstellationCmd, MultiPassCmd, MultiPassOutcome, Reply, WarpCmd};
use uplink_core::dispatch::handle_multipass_cmd;
use uplink_core::error::{BackendReason, ErrorKind};
use uplink_core::events::{EventBus, MessageEvent, RawMessageEvent, WarpEvent};
use uplink_core::streams::{forward_stream_item, StreamManager};

#[test]
fn response_slot_exactly_one_value() {
    let mut bus = CommandBus::new();
    let slot = bus.submit(WarpCmd::MultiPass(MultiPassCmd::GetOwnDid));
    let qc = bus.take_front().expect("one command queued");
    let cmd = match qc.cmd {
        WarpCmd::MultiPass(m) => m,
        _ => panic!("wrong family"),
    };
    let reply = handle_multipass_cmd(
        cmd,
        MultiPassOutcome::Did(Ok(String::from("did:key:alice"))),
    );
    bus.resolve(qc.slot, reply);
    // The one observation yields the one value.
    match bus.await_result(slot) {
        Ok(Reply::Did(Ok(d))) => assert_eq!(d, "did:key:alice"),
        _ => panic!("expected the did reply"),
    }
    // A second observation yields nothing more.
    match bus.await_result(slot) {
        Err(ErrorKind::ChannelClosed) => {}
        _ => panic!("a slot's value can be observed only once"),
    }
}

#[test]
fn abandoned_slot_reports_channel_closed() {
    let mut bus = CommandBus::new();
    let slot = bus.submit(WarpCmd::Constellation(ConstellationCmd::GetItemsFromCurrentDirectory));
    let qc = bus.take_front().expect("one command queued");
    bus.abandon(qc.slot);
    match bus.await_result(slot) {
        Err(ErrorKind::ChannelClosed) => {}
        _ => panic!("an abandoned slot fails with ChannelClosed"),
    }
}

#[test]
fn shutdown_closes_every_pending_slot() {
    let mut bus = CommandBus::new();
    let s1 = bus.submit(WarpCmd::MultiPass(MultiPassCmd::GetOwnDid));
    let s2 = bus.submit(WarpCmd::MultiPass(MultiPassCmd::InitializeFriends));
    bus.shutdown();
    assert!(!bus.has_next());
    match bus.await_result(s1) {
        Err(ErrorKind::ChannelClosed) => {}
        _ => panic!("shutdown surfaces ChannelClosed"),
    }
    match bus.await_result(s2) {
        Err(ErrorKind::ChannelClosed) => {}
        _ => panic!("shutdown surfaces ChannelClosed"),
    }
}

#[test]
fn commands_are_dispatched_in_order() {
    let mut bus = CommandBus::new();
    bus.submit(WarpCmd::MultiPass(MultiPassCmd::GetOwnDid));
    bus.submit(WarpCmd::MultiPass(MultiPassCmd::InitializeFriends));
    let first = bus.take_front().expect("first");
    assert!(matches!(first.cmd, WarpCmd::MultiPass(MultiPassCmd::GetOwnDid)));
    let second = bus.take_front().expect("second");
    assert!(matches!(second.cmd, WarpCmd::MultiPass(MultiPassCmd::InitializeFriends)));
    assert!(bus.take_front().is_none());
    bus.abandon(first.slot);
    bus.abandon(second.slot);
}

#[test]
fn event_bus_preserves_order_per_conversation() {
    let mut bus = EventBus::new();
    let e1 = WarpEvent::Message(MessageEvent::Received { conversation_id: 7 });
    let e2 = WarpEvent::Message(MessageEvent::Sent { conversation_id: 7 });
    let e3 = WarpEvent::Message(MessageEvent::Received { conversation_id: 9 });
    bus.send(e1);
    bus.send(e3);
    bus.send(e2);
    // The consumer observes conversation 7's events in production order.
    let drained = bus.drain();
    let of_seven: Vec<&WarpEvent> = drained
        .iter()
        .filter(|e| match e {
            WarpEvent::Message(MessageEvent::Received { conversation_id }) => *conversation_id == 7,
            WarpEvent::Message(MessageEvent::Sent { conversation_id }) => *conversation_id == 7,
            _ => false,
        })
        .collect();
    assert_eq!(of_seven.len(), 2);
    assert!(matches!(
        of_seven[0],
        WarpEvent::Message(MessageEvent::Received { conversation_id: 7 })
    ));
    assert!(matches!(
        of_seven[1],
        WarpEvent::Message(MessageEvent::Sent { conversation_id: 7 })
    ));
    assert!(bus.recv().is_none());
}

#[test]
fn event_bus_recv_is_fifo() {
    let mut bus = EventBus::new();
    bus.send(WarpEvent::Message(MessageEvent::Received { conversation_id: 1 }));
    bus.send(WarpEvent::Message(MessageEvent::Received { conversation_id: 2 }));
    match bus.recv() {
        Some(WarpEvent::Message(MessageEvent::Received { conversation_id })) => {
            assert_eq!(conversation_id, 1)
        }
        _ => panic!("first in, first out"),
    }
    match bus.recv() {
        Some(WarpEvent::Message(MessageEvent::Received { conversation_id })) => {
            assert_eq!(conversation_id, 2)
        }
        _ => panic!("first in, first out"),
    }
}

#[test]
fn add_stream_twice_leaves_one_handle() {
    let mut streams = StreamManager::new();
    let first = streams.add_stream(5, true).expect("accepted");
    assert!(first.replaced.is_none());
    assert!(streams.contains(5));
    let second = streams.add_stream(5, true).expect("accepted");
    // The old handle was detached: its task is named for cancellation.
    assert_eq!(second.replaced, Some(first.task));
    assert!(streams.contains(5));
    // Exactly one handle remains: removing it once empties the map.
    let removed = streams.remove_stream(5);
    assert_eq!(removed, Some(second.task));
    assert!(!streams.contains(5));
    assert_eq!(streams.remove_stream(5), None);
}

#[test]
fn rejected_stream_is_an_error_and_leaves_no_handle() {
    let mut streams = StreamManager::new();
    match streams.add_stream(8, false) {
        Err(ErrorKind::StreamOpenError) => {}
        _ => panic!("a rejected subscription fails with StreamOpenError"),
    }
    assert!(!streams.contains(8));
}

#[test]
fn forwarding_maps_items_and_closes_on_stream_end() {
    let mut streams = StreamManager::new();
    let mut events = EventBus::new();
    let eff = streams.add_stream(11, true).expect("accepted");
    let none = forward_stream_item(&mut streams, &mut events, 11, Some(RawMessageEvent::Received));
    assert!(none.is_none());
    // The stream ends unexpectedly: the handle is removed and the closure
    // is announced on the event bus.
    let cancel = forward_stream_item(&mut streams, &mut events, 11, None);
    assert_eq!(cancel, Some(eff.task));
    assert!(!streams.contains(11));
    let drained = events.drain();
    assert_eq!(drained.len(), 2);
    assert!(matches!(
        drained[0],
        WarpEvent::Message(MessageEvent::Received { conversation_id: 11 })
    ));
    assert!(matches!(
        drained[1],
        WarpEvent::ConversationStreamClosed { conversation_id: 11 }
    ));
}

#[test]
fn friend_request_reply_is_idempotent_success() {
    let ok = handle_multipass_cmd(
        MultiPassCmd::RequestFriend { did: String::from("did:key:bob") },
        MultiPassOutcome::Unit(Ok(())),
    );
    assert!(matches!(ok, Reply::Unit(Ok(()))));
    let again = handle_multipass_cmd(
        MultiPassCmd::RequestFriend { did: String::from("did:key:bob") },
        MultiPassOutcome::Unit(Err(BackendReason::FriendRequestExist)),
    );
    assert!(matches!(again, Reply::Unit(Ok(()))));
    let other = handle_multipass_cmd(
        MultiPassCmd::RequestFriend { did: String::from("did:key:bob") },
        MultiPassOutcome::Unit(Err(BackendReason::Other)),
    );
    assert!(matches!(
        other,
        Reply::Unit(Err(ErrorKind::BackendError(BackendReason::Other)))
    ));
}
