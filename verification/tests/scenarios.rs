//! Foreground scenarios: identity lifecycle, login, first message,
//! direct-conversation removal.

use uplink_core::bus::CommandBus;
use uplink_core::chats::{Chat, ChatAdapter, ConversationKind};
use uplink_core::commands::{
    CreateConvOutcome, RayGunCmd, RayGunOutcome, RemoveDirectOutcome, Reply, WarpCmd,
};
use uplink_core::dispatch::{handle_raygun_cmd, remove_direct_plan};
use uplink_core::error::{BackendReason, ErrorKind};
use uplink_core::state::{Action, LoginOutcome, State, StateState};
use uplink_core::streams::StreamManager;
use uplink_core::bridge::{initial_message_next, login_followups_needed};

fn direct_chat(id: u128, with: &str) -> Chat {
    Chat {
        id,
        kind: ConversationKind::Direct,
        recipients: vec![String::from(with)],
        unreads: 0,
        live: true,
    }
}

fn group_chat(id: u128, with: &str) -> Chat {
    Chat {
        id,
        kind: ConversationKind::Group,
        recipients: vec![String::from(with), String::from("did:key:carol")],
        unreads: 0,
        live: true,
    }
}

#[test]
fn check_identity_exists_before_and_after_creation() {
    let mut cell = StateState::new(State::initial());
    // No identity file exists yet.
    cell.apply_action(Action::CheckIdentity { file_exists: false });
    assert!(!cell.snapshot().identity_exists);
    // The identity "alice"/"pw" is created; the backend accepts.
    cell.apply_action(Action::CreateIdentity {
        outcome: Ok(uplink_core::identity::Identity {
            did_key: String::from("did:key:alice"),
            username: String::from("alice"),
            status: uplink_core::identity::IdentityStatus::Online,
        }),
    });
    assert!(cell.snapshot().identity_exists);
    // A subsequent check sees the file the backend wrote.
    cell.apply_action(Action::CheckIdentity { file_exists: true });
    assert!(cell.snapshot().identity_exists);
}

#[test]
fn create_identity_twice_fails_without_mutation() {
    let mut cell = StateState::new(State::initial());
    cell.apply_action(Action::CreateIdentity {
        outcome: Ok(uplink_core::identity::Identity {
            did_key: String::from("did:key:alice"),
            username: String::from("alice"),
            status: uplink_core::identity::IdentityStatus::Online,
        }),
    });
    assert!(cell.snapshot().identity_exists);
    assert!(cell.snapshot().logged_in);
    // Creating again: the backend reports failure; nothing changes.
    cell.apply_action(Action::CreateIdentity {
        outcome: Err(ErrorKind::BackendError(BackendReason::Other)),
    });
    assert!(cell.snapshot().identity_exists);
    assert!(cell.snapshot().logged_in);
    assert_eq!(cell.snapshot().counter, 0);
}

#[test]
fn login_with_wrong_passphrase_triggers_no_followups() {
    let mut cell = StateState::new(State::initial());
    cell.apply_action(Action::CheckIdentity { file_exists: true });
    // Authentication fails; the bridge issues no further round trips.
    let auth: Result<uplink_core::identity::Identity, ErrorKind> =
        Err(ErrorKind::BackendError(BackendReason::AuthFailed));
    assert!(!login_followups_needed(&auth));
    cell.apply_action(Action::Login {
        outcome: LoginOutcome::Failed(ErrorKind::BackendError(BackendReason::AuthFailed)),
    });
    assert!(!cell.snapshot().logged_in);
    assert!(!cell.snapshot().friends.initialized);
    assert!(!cell.snapshot().chats.initialized);
    assert!(!cell.snapshot().storage.initialized);
}

#[test]
fn send_initial_message_creates_one_conversation_with_one_message() {
    let mut bus = CommandBus::new();
    let mut streams = StreamManager::new();

    // The bridge submits the creation round trip for bob.
    let create_slot = bus.submit(WarpCmd::RayGun(RayGunCmd::CreateConversation {
        recipient: String::from("did:example:bob"),
    }));
    // The dispatcher takes it; the backend creates conversation 42.
    let qc = bus.take_front().expect("create queued");
    let cmd = match qc.cmd {
        WarpCmd::RayGun(c) => c,
        _ => panic!("wrong family"),
    };
    let adapter = ChatAdapter { inner: direct_chat(42, "did:example:bob"), identities: vec![] };
    let reply = handle_raygun_cmd(
        cmd,
        RayGunOutcome::Create(CreateConvOutcome::Created { adapter, stream_accepted: true }),
        &mut streams,
    )
    .expect("a creation is always answered");
    bus.resolve(qc.slot, reply);

    // The bridge observes the reply and chains the send round trip.
    let created = match bus.await_result(create_slot) {
        Ok(Reply::Chat(Ok(a))) => a,
        _ => panic!("expected the adapted conversation"),
    };
    assert_eq!(created.inner.id, 42);
    let conv_id = initial_message_next(&Ok(created)).expect("creation succeeded");
    assert_eq!(conv_id, 42);

    let send_slot = bus.submit(WarpCmd::RayGun(RayGunCmd::SendMessage {
        conv_id,
        msg: vec![String::from("hello")],
        attachments: vec![],
    }));
    let qc2 = bus.take_front().expect("send queued");
    // The backend delivers exactly the one message with the one line.
    let mut delivered: Vec<Vec<String>> = Vec::new();
    let cmd2 = match qc2.cmd {
        WarpCmd::RayGun(RayGunCmd::SendMessage { conv_id, msg, attachments }) => {
            assert_eq!(conv_id, 42);
            assert!(attachments.is_empty());
            delivered.push(msg.clone());
            RayGunCmd::SendMessage { conv_id, msg, attachments }
        }
        _ => panic!("wrong command"),
    };
    let reply2 = handle_raygun_cmd(cmd2, RayGunOutcome::Unit(Ok(())), &mut streams)
        .expect("a send is always answered");
    bus.resolve(qc2.slot, reply2);
    match bus.await_result(send_slot) {
        Ok(Reply::Unit(Ok(()))) => {}
        _ => panic!("the send succeeded"),
    }

    // Exactly one conversation was created and one message delivered.
    assert!(!bus.has_next());
    assert!(streams.contains(42));
    assert_eq!(delivered.len(), 1);
    assert_eq!(delivered[0], vec![String::from("hello")]);
}

#[test]
fn remove_direct_convs_spares_groups() {
    let recipient = String::from("did:key:bob");
    let convs = vec![
        direct_chat(1, "did:key:bob"),
        group_chat(2, "did:key:bob"),
        direct_chat(3, "did:key:carol"),
        direct_chat(4, "did:key:bob"),
    ];
    let plan = remove_direct_plan(&convs, &recipient);
    // Every direct conversation with bob, in order; groups untouched.
    assert_eq!(plan, vec![1u128, 4u128]);

    let mut streams = StreamManager::new();
    streams.add_stream(1, true).expect("accepted");
    streams.add_stream(2, true).expect("accepted");
    streams.add_stream(4, true).expect("accepted");
    let reply = handle_raygun_cmd(
        RayGunCmd::RemoveDirectConvs { recipient },
        RayGunOutcome::RemoveDirect(RemoveDirectOutcome {
            list: Ok(convs),
            deletes: vec![Ok(()), Ok(())],
        }),
        &mut streams,
    )
    .expect("a removal is always answered");
    assert!(matches!(reply, Reply::Unit(Ok(()))));
    // The deleted conversations' streams are detached; the group's stays.
    assert!(!streams.contains(1));
    assert!(!streams.contains(4));
    assert!(streams.contains(2));
}

#[test]
fn remove_direct_convs_surfaces_first_deletion_error() {
    let recipient = String::from("did:key:bob");
    let convs = vec![direct_chat(1, "did:key:bob"), direct_chat(4, "did:key:bob")];
    let mut streams = StreamManager::new();
    // The first deletion fails: the batch stops, the error surfaces.
    let reply = handle_raygun_cmd(
        RayGunCmd::RemoveDirectConvs { recipient },
        RayGunOutcome::RemoveDirect(RemoveDirectOutcome {
            list: Ok(convs),
            deletes: vec![Err(BackendReason::ConversationNotFound)],
        }),
        &mut streams,
    )
    .expect("a removal is always answered");
    assert!(matches!(
        reply,
        Reply::Unit(Err(ErrorKind::BackendError(BackendReason::ConversationNotFound)))
    ));
}
