//! Tests of the state reducer, event folding, identifier parsing and
//! the snapshot's auxiliary types.

use uplink_core::chats::{Chat, ChatAdapter, ConversationKind};
use uplink_core::commands::{
    ConstellationCmd, ConstellationOutcome, FriendsLists, InitConvItem, MultiPassCmd,
    MultiPassOutcome, RayGunCmd, RayGunOutcome, Reply,
};
use uplink_core::config::StaticArgs;
use uplink_core::bridge::{initialize_should_retry, make_send_message_cmd};
use uplink_core::dispatch::{handle_constellation_cmd, handle_multipass_cmd, handle_raygun_cmd, remove_direct_plan, send_message_uses_attachments};
use uplink_core::error::{BackendReason, ErrorKind};
use uplink_core::events::{MessageEvent, MultiPassEvent, RayGunEvent, WarpEvent};
use uplink_core::identity::{Identity, IdentityStatus};
use uplink_core::ids::parse_conv_id;
use uplink_core::state::{next_action, process_multipass_event, state, Action, State, StateState};
use uplink_core::streams::StreamManager;
use uplink_core::ui::{Call, DebugLogger, ToastNotification, UI, WindowMeta, Notifications};

fn ident(did: &str, name: &str) -> Identity {
    Identity {
        did_key: String::from(did),
        username: String::from(name),
        status: IdentityStatus::Offline,
    }
}

fn find<'a>(v: &'a [Identity], did: &str) -> Option<&'a Identity> {
    v.iter().find(|i| i.did_key == did)
}

#[test]
fn increment_counter_adds_exactly_the_step() {
    let mut cell = StateState::new(State::initial());
    cell.apply_action(Action::IncrementCounter { step: 5 });
    assert_eq!(cell.snapshot().counter, 5);
    cell.apply_action(Action::IncrementCounter { step: -2 });
    assert_eq!(cell.snapshot().counter, 3);
}

#[test]
fn pass_through_hook_is_identity() {
    let s = State::initial();
    let s = state(s);
    let s = next_action(s);
    assert!(!s.logged_in);
    assert_eq!(s.counter, 0);
}

#[test]
fn successful_login_folds_all_three_payloads() {
    let mut cell = StateState::new(State::initial());
    let friends_reply = handle_multipass_cmd(
        MultiPassCmd::InitializeFriends,
        MultiPassOutcome::Friends(Ok(FriendsLists {
            all: vec![ident("did:key:bob", "bob")],
            blocked: vec![],
            incoming_requests: vec![],
            outgoing_requests: vec![],
        })),
    );
    let friends = match friends_reply {
        Reply::FriendsList(Ok(p)) => p,
        _ => panic!("expected friends"),
    };
    let mut streams = StreamManager::new();
    let convs_reply = handle_raygun_cmd(
        RayGunCmd::InitializeConversations,
        RayGunOutcome::Convs(Ok(vec![InitConvItem {
            chat: Some(ChatAdapter {
                inner: Chat {
                    id: 9,
                    kind: ConversationKind::Direct,
                    recipients: vec![String::from("did:key:bob")],
                    unreads: 0,
                    live: true,
                },
                identities: vec![ident("did:key:bob", "bob")],
            }),
            stream_accepted: true,
        }])),
        &mut streams,
    )
    .expect("listing succeeded");
    let conversations = match convs_reply {
        Reply::Conversations(Ok(p)) => p,
        _ => panic!("expected conversations"),
    };
    let storage_reply = handle_constellation_cmd(
        ConstellationCmd::GetItemsFromCurrentDirectory,
        ConstellationOutcome::Listing(Ok(vec![String::from("notes.txt")])),
    );
    let storage = match storage_reply {
        Reply::Listing(Ok(s)) => s,
        _ => panic!("expected listing"),
    };
    cell.apply_action(Action::Login {
        outcome: uplink_core::state::LoginOutcome::Succeeded { friends, conversations, storage },
    });
    let snap = cell.snapshot();
    assert!(snap.logged_in);
    assert!(snap.friends.initialized);
    assert!(find(&snap.friends.all, "did:key:bob").is_some());
    assert!(snap.chats.initialized);
    assert_eq!(snap.chats.all.len(), 1);
    assert_eq!(snap.chats.all[0].id, 9);
    assert!(snap.storage.initialized);
    assert_eq!(snap.storage.items, vec![String::from("notes.txt")]);
    assert!(streams.contains(9));
}

#[test]
fn initialize_conversations_partial_success() {
    let mut streams = StreamManager::new();
    let ok_chat = |id: u128| ChatAdapter {
        inner: Chat {
            id,
            kind: ConversationKind::Direct,
            recipients: vec![String::from("did:key:bob")],
            unreads: 0,
            live: true,
        },
        identities: vec![],
    };
    let reply = handle_raygun_cmd(
        RayGunCmd::InitializeConversations,
        RayGunOutcome::Convs(Ok(vec![
            // Adapted, stream accepted.
            InitConvItem { chat: Some(ok_chat(1)), stream_accepted: true },
            // Adapted, stream rejected: the conversation still appears.
            InitConvItem { chat: Some(ok_chat(2)), stream_accepted: false },
            // Adaptation failed: skipped entirely.
            InitConvItem { chat: None, stream_accepted: true },
        ])),
        &mut streams,
    )
    .expect("listing succeeded");
    let payload = match reply {
        Reply::Conversations(Ok(p)) => p,
        _ => panic!("expected conversations"),
    };
    let mut ids: Vec<u128> = payload.chats.iter().map(|c| c.id).collect();
    ids.sort();
    assert_eq!(ids, vec![1, 2]);
    assert!(streams.contains(1));
    assert!(!streams.contains(2));
}

#[test]
fn initialize_conversations_listing_failure_is_abandoned_and_retried() {
    let mut streams = StreamManager::new();
    let reply = handle_raygun_cmd(
        RayGunCmd::InitializeConversations,
        RayGunOutcome::Convs(Err(BackendReason::Other)),
        &mut streams,
    );
    // No reply: the slot is abandoned, the caller sees ChannelClosed and
    // retries after a short backoff.
    assert!(reply.is_none());
    assert!(initialize_should_retry(&Err(ErrorKind::ChannelClosed)));
    assert!(!initialize_should_retry(&Ok(Reply::Unit(Ok(())))));
    assert!(!initialize_should_retry(&Err(ErrorKind::BackendError(BackendReason::Other))));
}

#[test]
fn friends_listing_is_deduplicated() {
    let reply = handle_multipass_cmd(
        MultiPassCmd::InitializeFriends,
        MultiPassOutcome::Friends(Ok(FriendsLists {
            all: vec![ident("did:key:bob", "bob"), ident("did:key:bob", "bobby")],
            blocked: vec![],
            incoming_requests: vec![ident("did:key:carol", "carol")],
            outgoing_requests: vec![],
        })),
    );
    let p = match reply {
        Reply::FriendsList(Ok(p)) => p,
        _ => panic!("expected friends"),
    };
    assert_eq!(p.friends.all.len(), 1);
    assert_eq!(p.friends.all[0].did_key, "did:key:bob");
    assert_eq!(p.friends.incoming_requests.len(), 1);
    assert!(p.friends.initialized);
}

#[test]
fn multipass_events_fold_into_friends() {
    let mut s = State::initial();
    process_multipass_event(
        &mut s,
        MultiPassEvent::FriendRequestReceived(ident("did:key:bob", "bob")),
    );
    assert_eq!(s.friends.incoming_requests.len(), 1);
    process_multipass_event(&mut s, MultiPassEvent::FriendAdded(ident("did:key:bob", "bob")));
    assert!(s.friends.incoming_requests.is_empty());
    assert_eq!(s.friends.all.len(), 1);
    process_multipass_event(&mut s, MultiPassEvent::FriendOnline(ident("did:key:bob", "bob")));
    assert!(matches!(s.friends.all[0].status, IdentityStatus::Online));
    process_multipass_event(&mut s, MultiPassEvent::Blocked(ident("did:key:bob", "bob")));
    assert!(s.friends.all.is_empty());
    assert_eq!(s.friends.blocked.len(), 1);
    process_multipass_event(&mut s, MultiPassEvent::Unblocked(ident("did:key:bob", "bob")));
    assert!(s.friends.blocked.is_empty());
}

#[test]
fn warp_events_fold_into_chats() {
    let mut s = State::initial();
    let chat = Chat {
        id: 3,
        kind: ConversationKind::Direct,
        recipients: vec![String::from("did:key:bob")],
        unreads: 0,
        live: true,
    };
    s.process_warp_event(WarpEvent::RayGun(RayGunEvent::ConversationCreated(chat)));
    assert_eq!(s.chats.all.len(), 1);
    s.process_warp_event(WarpEvent::Message(MessageEvent::Received { conversation_id: 3 }));
    s.process_warp_event(WarpEvent::Message(MessageEvent::Received { conversation_id: 3 }));
    assert_eq!(s.chats.all[0].unreads, 2);
    // A message for an unknown conversation changes nothing.
    s.process_warp_event(WarpEvent::Message(MessageEvent::Received { conversation_id: 99 }));
    assert_eq!(s.chats.all.len(), 1);
    assert_eq!(s.chats.all[0].unreads, 2);
    s.process_warp_event(WarpEvent::ConversationStreamClosed { conversation_id: 3 });
    assert!(!s.chats.all[0].live);
    s.process_warp_event(WarpEvent::RayGun(RayGunEvent::ConversationDeleted(3)));
    assert!(s.chats.all.is_empty());
}

#[test]
fn conversation_id_strings_decode_to_their_value() {
    let id = parse_conv_id("936da01f-9abd-4d9d-80c7-02af85c822a8").expect("well-formed");
    assert_eq!(id, 0x936da01f_9abd_4d9d_80c7_02af85c822a8u128);
    match parse_conv_id("not-a-conversation-id") {
        Err(ErrorKind::ParseError) => {}
        _ => panic!("malformed ids are rejected with ParseError"),
    }
}

#[test]
fn send_message_command_is_built_from_parsed_id() {
    let cmd = make_send_message_cmd(
        "936da01f-9abd-4d9d-80c7-02af85c822a8",
        vec![String::from("first line"), String::from("second line")],
        vec![],
    )
    .expect("well-formed id");
    match cmd {
        RayGunCmd::SendMessage { conv_id, msg, attachments } => {
            assert_eq!(conv_id, 0x936da01f_9abd_4d9d_80c7_02af85c822a8u128);
            assert_eq!(msg, vec![String::from("first line"), String::from("second line")]);
            assert!(attachments.is_empty());
            assert!(!send_message_uses_attachments(&attachments));
        }
        _ => panic!("expected a send command"),
    }
    match make_send_message_cmd("nope", vec![], vec![]) {
        Err(ErrorKind::ParseError) => {}
        _ => panic!("malformed ids are rejected before submission"),
    }
    assert!(send_message_uses_attachments(&vec![String::from("photo.png")]));
}

#[test]
fn download_target_is_the_file_inside_the_directory() {
    let p = uplink_core::dispatch::download_target_path(
        String::from("/home/alice/Downloads"),
        &String::from("photo.png"),
    );
    assert_eq!(p, "/home/alice/Downloads/photo.png");
}

#[test]
fn remove_direct_plan_of_empty_listing_is_empty() {
    let plan = remove_direct_plan(&vec![], &String::from("did:key:bob"));
    assert!(plan.is_empty());
}

#[test]
fn delete_identity_resets_the_snapshot() {
    let mut cell = StateState::new(State::initial());
    cell.apply_action(Action::CheckIdentity { file_exists: true });
    cell.apply_action(Action::IncrementCounter { step: 7 });
    cell.apply_action(Action::DeleteIdentity);
    let snap = cell.snapshot();
    assert!(!snap.identity_exists);
    assert!(!snap.logged_in);
    assert_eq!(snap.counter, 0);
}

#[test]
fn toast_notification_counts_down_and_resets() {
    let mut toast = ToastNotification::init(
        String::from("new message"),
        String::from("bob says hello"),
        None,
        2,
    );
    assert_eq!(toast.remaining_time(), 2);
    toast.decrement_time();
    assert_eq!(toast.remaining_time(), 1);
    toast.decrement_time();
    toast.decrement_time();
    // The countdown stops at zero.
    assert_eq!(toast.remaining_time(), 0);
    toast.reset_time();
    assert_eq!(toast.remaining_time(), 2);
}

#[test]
fn ui_popout_and_call_toggles() {
    let mut ui = UI {
        notifications: Notifications { friends: 0, messages: 0 },
        current_call: None,
        current_debug_logger: None,
        popout_player: false,
        toast_notifications: vec![],
        theme: None,
        enable_overlay: false,
        sidebar_hidden: false,
        metadata: WindowMeta {
            focused: true,
            maximized: false,
            minimized: false,
            width: 800,
            height: 600,
            minimal_view: false,
        },
    };
    assert!(!ui.is_minimal_view());
    assert_eq!(ui.get_meta().width, 800);
    ui.set_popout(77);
    assert!(ui.popout_player);
    ui.toggle_muted();
    assert!(ui.current_call.expect("call ongoing").muted);
    ui.toggle_silenced();
    assert!(ui.current_call.expect("call ongoing").silenced);
    assert_eq!(ui.clear_popout(), Some(77));
    assert!(!ui.popout_player);
    ui.set_debug_logger(78);
    assert_eq!(ui.clear_debug_logger(), Some(78));
    assert!(ui.current_debug_logger.is_none());
    let mut call = Call::new(Some(5));
    assert_eq!(call.take_window_id(), Some(5));
    assert_eq!(call.take_window_id(), None);
    let mut logger = DebugLogger::new(Some(6));
    assert_eq!(logger.take_window_id(), Some(6));
}

#[test]
fn static_args_resolve_from_base_directory() {
    let args = StaticArgs::resolve(String::from("/home/alice/.light"), false, true);
    assert_eq!(args.uplink_path, "/home/alice/.light");
    assert_eq!(args.light_path, "/home/alice/.light");
    assert_eq!(args.cache_path, "/home/alice/.light/state.json");
    assert_eq!(args.config_path, "/home/alice/.light/Config.json");
    assert_eq!(args.warp_path, "/home/alice/.light/warp");
    assert_eq!(args.tesseract_path, "/home/alice/.light/warp/tesseract.json");
    assert_eq!(args.id_path, "/home/alice/.light/warp/.id");
    assert_eq!(args.logger_path, "/home/alice/.light/debug.log");
    assert_eq!(args.mock_cache_path, "/home/alice/.light/mock-state.json");
    assert_eq!(args.login_config_path, "/home/alice/.light/login_config.json");
    assert!(!args.use_mock);
    assert!(args.experimental);
}

#[test]
fn create_conversation_downgrades_already_exists() {
    let mut streams = StreamManager::new();
    let adapter = ChatAdapter {
        inner: Chat {
            id: 21,
            kind: ConversationKind::Direct,
            recipients: vec![String::from("did:key:bob")],
            unreads: 0,
            live: true,
        },
        identities: vec![],
    };
    let reply = handle_raygun_cmd(
        RayGunCmd::CreateConversation { recipient: String::from("did:key:bob") },
        RayGunOutcome::Create(uplink_core::commands::CreateConvOutcome::Existing {
            adapter,
            stream_accepted: true,
        }),
        &mut streams,
    )
    .expect("a creation is always answered");
    match reply {
        Reply::Chat(Ok(a)) => assert_eq!(a.inner.id, 21),
        _ => panic!("an existing conversation is a success"),
    }
    assert!(streams.contains(21));
}
