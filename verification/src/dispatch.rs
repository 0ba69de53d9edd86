//! The Command Dispatcher's per-command decisions.
//!
//! The dispatcher consumes commands, has the host runtime perform the
//! backend capability calls, and decides from each call's outcome the one
//! reply that resolves the command's response slot. Everything decided
//! here is verified; the host runtime only moves values.

use vstd::prelude::*;
use vstd::string::StringExecFns;
use crate::chats::{
    Chat, ChatAdapter, ConversationKind, convs_unique, has_conv, lemma_conv_upserted_membership,
    upsert_chat,
};
use crate::commands::{
    BackendOutcome, ConstellationCmd, ConstellationOutcome, ConversationsPayload,
    CreateConvOutcome, FriendsLists, FriendsPayload, InitConvItem, MultiPassCmd, MultiPassOutcome,
    RayGunCmd, RayGunOutcome, RemoveDirectOutcome, Reply, WarpCmd, outcome_matches,
};
use crate::storage::Storage;
use crate::error::{BackendReason, ErrorKind};
use crate::streams::{StreamHandle, StreamManager, has_handle, lemma_handle_upserted_membership};
use crate::identity::{
    Friends, Identity, dids_unique, has_did, lemma_has_did_push, lemma_upserted_has_did,
    upsert_identity,
};

verus! {

/// Whether `d` is among the recipients `rs`.
pub open spec fn has_recipient(rs: Seq<String>, d: Seq<char>) -> bool {
    exists|i: int| 0 <= i < rs.len() && rs[i]@ == d
}

/// Whether `c` is a direct (two-party) conversation involving `d`.
pub open spec fn is_direct_with(c: Chat, d: Seq<char>) -> bool {
    c.kind == ConversationKind::Direct && has_recipient(c.recipients@, d)
}

/// Executable form of `is_direct_with`.
pub fn chat_is_direct_with(c: &Chat, d: &String) -> (r: bool)
    ensures
        r == is_direct_with(*c, d@),
{
    match c.kind {
        ConversationKind::Group => {
            return false;
        }
        ConversationKind::Direct => {}
    }
    let mut j: usize = 0;
    while j < c.recipients.len()
        invariant
            j <= c.recipients@.len(),
            c.kind == ConversationKind::Direct,
            forall|k: int| 0 <= k < j ==> c.recipients@[k]@ != d@,
        decreases c.recipients@.len() - j,
    {
        if c.recipients[j].eq(d) {
            assert(c.recipients@[j as int]@ == d@);
            return true;
        }
        j = j + 1;
    }
    false
}

/// The ids of the conversations `RemoveDirectConvs` must delete: every
/// direct conversation involving the recipient, in listing order, and
/// nothing else — group conversations involving the recipient stay.
pub open spec fn spec_remove_direct_plan(convs: Seq<Chat>, d: Seq<char>) -> Seq<u128>
    decreases convs.len(),
{
    if convs.len() == 0 {
        Seq::empty()
    } else {
        let rest = spec_remove_direct_plan(convs.drop_first(), d);
        if is_direct_with(convs[0], d) {
            seq![convs[0].id] + rest
        } else {
            rest
        }
    }
}

/// Every direct conversation involving the recipient is planned for
/// deletion.
pub proof fn lemma_remove_direct_plan_complete(convs: Seq<Chat>, d: Seq<char>, i: int)
    requires
        0 <= i < convs.len(),
        is_direct_with(convs[i], d),
    ensures
        spec_remove_direct_plan(convs, d).contains(convs[i].id),
    decreases convs.len(),
{
    let rest = spec_remove_direct_plan(convs.drop_first(), d);
    if i == 0 {
        assert(spec_remove_direct_plan(convs, d)[0] == convs[0].id);
    } else {
        assert(convs.drop_first()[i - 1] == convs[i]);
        lemma_remove_direct_plan_complete(convs.drop_first(), d, i - 1);
        let j = choose|j: int| 0 <= j < rest.len() && rest[j] == convs[i].id;
        if is_direct_with(convs[0], d) {
            assert(spec_remove_direct_plan(convs, d)[j + 1] == convs[i].id);
        }
    }
}

/// Only direct conversations involving the recipient are planned: each
/// planned id is the id of some listed direct conversation with `d`. In
/// particular group conversations are left untouched.
pub proof fn lemma_remove_direct_plan_sound(convs: Seq<Chat>, d: Seq<char>, j: int)
    requires
        0 <= j < spec_remove_direct_plan(convs, d).len(),
    ensures
        exists|i: int|
            0 <= i < convs.len() && is_direct_with(convs[i], d) && convs[i].id
                == spec_remove_direct_plan(convs, d)[j],
    decreases convs.len(),
{
    let plan = spec_remove_direct_plan(convs, d);
    let rest = spec_remove_direct_plan(convs.drop_first(), d);
    if is_direct_with(convs[0], d) && j == 0 {
        assert(plan[0] == convs[0].id);
    } else {
        let j2: int = if is_direct_with(convs[0], d) {
            j - 1
        } else {
            j
        };
        lemma_remove_direct_plan_sound(convs.drop_first(), d, j2);
        let i2 = choose|i: int|
            0 <= i < convs.drop_first().len() && is_direct_with(convs.drop_first()[i], d)
                && convs.drop_first()[i].id == rest[j2];
        assert(convs.drop_first()[i2] == convs[i2 + 1]);
        assert(plan[j] == rest[j2]);
    }
}

/// Executable form of `spec_remove_direct_plan`.
pub fn remove_direct_plan(convs: &Vec<Chat>, recipient: &String) -> (r: Vec<u128>)
    ensures
        r@ == spec_remove_direct_plan(convs@, recipient@),
{
    let mut out: Vec<u128> = Vec::new();
    let mut i: usize = 0;
    assert(convs@.skip(0) =~= convs@);
    assert(out@ + spec_remove_direct_plan(convs@, recipient@) =~= spec_remove_direct_plan(
        convs@,
        recipient@,
    ));
    while i < convs.len()
        invariant
            i <= convs@.len(),
            out@ + spec_remove_direct_plan(convs@.skip(i as int), recipient@)
                == spec_remove_direct_plan(convs@, recipient@),
        decreases convs@.len() - i,
    {
        let ghost pre = convs@.skip(i as int);
        proof {
            assert(pre[0] == convs@[i as int]);
            assert(pre.drop_first() =~= convs@.skip(i as int + 1));
        }
        if chat_is_direct_with(&convs[i], recipient) {
            out.push(convs[i].id);
            proof {
                assert(out@ + spec_remove_direct_plan(convs@.skip(i as int + 1), recipient@)
                    =~= spec_remove_direct_plan(convs@, recipient@));
            }
        } else {
            proof {
                assert(out@ + spec_remove_direct_plan(convs@.skip(i as int + 1), recipient@)
                    =~= spec_remove_direct_plan(convs@, recipient@));
            }
        }
        i = i + 1;
    }
    proof {
        assert(convs@.skip(convs@.len() as int) =~= Seq::<Chat>::empty());
        assert(out@ =~= spec_remove_direct_plan(convs@, recipient@));
    }
    out
}

/// How the host performed the planned deletions: one outcome per planned
/// conversation in order, stopping right after the first failure.
pub open spec fn deletes_consistent(
    plan: Seq<u128>,
    deletes: Seq<Result<(), BackendReason>>,
) -> bool {
    deletes.len() <= plan.len() && (forall|k: int|
        0 <= k < deletes.len() - 1 ==> deletes[k] is Ok) && (deletes.len() < plan.len()
        ==> deletes.len() > 0 && deletes[deletes.len() - 1] is Err) && (plan.len() > 0
        ==> deletes.len() > 0)
}

/// The reply of a deletion batch: its first (and only) failure, or
/// success when every planned deletion succeeded.
pub open spec fn spec_remove_direct_reply(deletes: Seq<Result<(), BackendReason>>) -> Result<
    (),
    ErrorKind,
> {
    if deletes.len() > 0 && deletes[deletes.len() - 1] is Err {
        match deletes[deletes.len() - 1] {
            Err(e) => Err(ErrorKind::BackendError(e)),
            Ok(_) => Ok(()),
        }
    } else {
        Ok(())
    }
}

/// Collapses a raw identity list into one with distinct dids: a did kept
/// iff the raw list carried it; on a repeated did the last entry wins.
pub fn dedup_identities(v: Vec<Identity>) -> (r: Vec<Identity>)
    ensures
        dids_unique(r@),
        forall|d: Seq<char>| #[trigger] has_did(r@, d) <==> has_did(v@, d),
{
    let mut src = v;
    let mut out: Vec<Identity> = Vec::new();
    let ghost orig = src@;
    let n = src.len();
    assert(orig.len() == n);
    let mut i: usize = 0;
    while src.len() > 0
        invariant
            dids_unique(out@),
            i <= orig.len(),
            orig.len() <= usize::MAX,
            src@ =~= orig.skip(i as int),
            forall|d: Seq<char>| #[trigger] has_did(out@, d) <==> has_did(orig.take(i as int), d),
        decreases src@.len(),
    {
        let item = src.remove(0);
        proof {
            assert(item == orig[i as int]);
            assert(src@ =~= orig.skip(i as int + 1));
            assert(orig.take(i as int + 1) =~= orig.take(i as int).push(orig[i as int]));
            lemma_has_did_push(orig.take(i as int), orig[i as int]);
        }
        let ghost prev_out = out@;
        let ghost item_g = item;
        upsert_identity(&mut out, item);
        proof {
            lemma_upserted_has_did(prev_out, out@, item_g);
        }
        i = i + 1;
    }
    proof {
        assert(orig.take(i as int) =~= orig);
        assert(v@ == orig);
    }
    out
}

/// Builds the well-formed friends record from the backend's raw listing:
/// each list deduplicated by did, and the record marked initialized.
pub fn build_friends(lists: FriendsLists) -> (r: Friends)
    ensures
        r.wf(),
        r.initialized,
        forall|d: Seq<char>| #[trigger] has_did(r.all@, d) <==> has_did(lists.all@, d),
        forall|d: Seq<char>| #[trigger] has_did(r.blocked@, d) <==> has_did(lists.blocked@, d),
        forall|d: Seq<char>| #[trigger]
            has_did(r.incoming_requests@, d) <==> has_did(lists.incoming_requests@, d),
        forall|d: Seq<char>| #[trigger]
            has_did(r.outgoing_requests@, d) <==> has_did(lists.outgoing_requests@, d),
{
    let FriendsLists { all, blocked, incoming_requests, outgoing_requests } = lists;
    Friends {
        initialized: true,
        all: dedup_identities(all),
        blocked: dedup_identities(blocked),
        incoming_requests: dedup_identities(incoming_requests),
        outgoing_requests: dedup_identities(outgoing_requests),
    }
}

/// Whether the item's conversation, if its adaptation succeeded, is
/// present in `chats`.
pub open spec fn item_listed_in(it: InitConvItem, chats: Seq<Chat>) -> bool {
    match it.chat {
        Some(a) => has_conv(chats, a.inner.id),
        None => true,
    }
}

/// The conversation of an initial-listing item, where its adaptation
/// succeeded.
pub open spec fn item_conv_id(it: InitConvItem) -> Option<u128> {
    match it.chat {
        Some(a) => Some(a.inner.id),
        None => None,
    }
}

/// Whether an initial-listing item attaches a live stream for `x`.
pub open spec fn item_attaches(it: InitConvItem, x: u128) -> bool {
    it.stream_accepted && item_conv_id(it) == Some(x)
}

/// Whether the item's adaptation succeeded with exactly the
/// conversation `c`.
pub open spec fn item_has_inner(it: InitConvItem, c: Chat) -> bool {
    match it.chat {
        Some(a) => a.inner == c,
        None => false,
    }
}

/// Whether `c` is the adapted form of some listed item.
pub open spec fn chat_sourced(items: Seq<InitConvItem>, c: Chat) -> bool {
    exists|k: int| 0 <= k < items.len() && item_has_inner(#[trigger] items[k], c)
}

/// Every conversation in `chats` is the adapted form of some listed
/// item: the fold invents nothing.
pub open spec fn chats_all_sourced(items: Seq<InitConvItem>, chats: Seq<Chat>) -> bool {
    forall|a: int| 0 <= a < chats.len() ==> chat_sourced(items, #[trigger] chats[a])
}

/// Whether an initial-listing item's participants include did `d`.
pub open spec fn item_mentions(it: InitConvItem, d: Seq<char>) -> bool {
    match it.chat {
        Some(a) => has_did(a.identities@, d),
        None => false,
    }
}

/// Folds the initial conversation listing: every conversation whose
/// adaptation succeeded appears in the returned map (even when opening
/// its live stream failed — partial success degrades streaming, it never
/// drops the conversation), its participants' identities are collected,
/// and a stream handle is attached for exactly the accepted streams.
pub fn raygun_initialize_conversations(items: Vec<InitConvItem>, streams: &mut StreamManager) -> (r:
    ConversationsPayload)
    requires
        old(streams).wf(),
        old(streams).spec_next_task() as int + items@.len() <= u64::MAX as int,
    ensures
        final(streams).wf(),
        convs_unique(r.chats@),
        dids_unique(r.identities@),
        forall|d: Seq<char>|
            has_did(r.identities@, d) <==> exists|k: int|
                0 <= k < items@.len() && item_mentions(#[trigger] items@[k], d),
        forall|k: int| 0 <= k < items@.len() ==> item_listed_in(#[trigger] items@[k], r.chats@),
        chats_all_sourced(items@, r.chats@),
        forall|x: u128|
            has_handle(final(streams)@, x) <==> (has_handle(old(streams)@, x) || exists|k: int|
                0 <= k < items@.len() && item_attaches(#[trigger] items@[k], x)),
{
    let ghost orig = items@;
    let n = items.len();
    assert(orig.len() == n);
    let mut rest = items;
    let mut chats: Vec<Chat> = Vec::new();
    let mut idents: Vec<Identity> = Vec::new();
    let mut i: usize = 0;
    while rest.len() > 0
        invariant
            streams.wf(),
            i <= orig.len(),
            orig.len() <= usize::MAX,
            rest@ =~= orig.skip(i as int),
            old(streams).spec_next_task() as int + orig.len() <= u64::MAX as int,
            streams.spec_next_task() as int <= old(streams).spec_next_task() as int + i,
            convs_unique(chats@),
            dids_unique(idents@),
            forall|d: Seq<char>|
                has_did(idents@, d) <==> exists|k: int|
                    0 <= k < i && item_mentions(#[trigger] orig[k], d),
            forall|k: int| 0 <= k < i ==> item_listed_in(#[trigger] orig[k], chats@),
            forall|a: int|
                0 <= a < chats@.len() ==> exists|k: int|
                    0 <= k < i && item_has_inner(orig[k], #[trigger] chats@[a]),
            forall|x: u128|
                has_handle(streams@, x) <==> (has_handle(old(streams)@, x) || exists|k: int|
                    0 <= k < i && item_attaches(#[trigger] orig[k], x)),
        decreases rest@.len(),
    {
        let it = rest.remove(0);
        let ghost it_g = it;
        proof {
            assert(it_g == orig[i as int]);
            assert(rest@ =~= orig.skip(i as int + 1));
        }
        match it.chat {
            Some(adapter) => {
                let ghost adapter_ids = adapter.identities@;
                let id = adapter.inner.id;
                if it.stream_accepted {
                    let ghost prev = streams@;
                    match streams.add_stream(id, true) {
                        Ok(eff) => {
                            proof {
                                lemma_handle_upserted_membership(
                                    prev,
                                    streams@,
                                    StreamHandle { conversation_id: id, task: eff.task },
                                );
                                assert forall|x: u128| has_handle(streams@, x) <==> (has_handle(
                                    old(streams)@,
                                    x,
                                ) || exists|k: int|
                                    0 <= k < i + 1 && item_attaches(#[trigger] orig[k], x)) by {
                                    assert(item_attaches(orig[i as int], id));
                                    if has_handle(streams@, x) && !has_handle(prev, x) {
                                        assert(x == id);
                                    }
                                }
                            }
                        }
                        Err(_) => {
                            proof {
                                assert(false);
                            }
                        }
                    }
                } else {
                    proof {
                        assert(forall|x: u128| !item_attaches(orig[i as int], x));
                    }
                }
                let ChatAdapter { inner, identities } = adapter;
                let ghost prev_chats = chats@;
                let ghost inner_g = inner;
                upsert_chat(&mut chats, inner);
                proof {
                    lemma_conv_upserted_membership(prev_chats, chats@, inner_g);
                    assert(item_has_inner(orig[i as int], inner_g));
                    assert forall|a: int|
                        0 <= a < chats@.len() implies exists|k: int|
                            0 <= k < i + 1 && item_has_inner(orig[k], #[trigger] chats@[a]) by {
                        if has_conv(prev_chats, inner_g.id) {
                            let u = choose|u: int|
                                0 <= u < prev_chats.len() && prev_chats[u].id == inner_g.id
                                    && chats@ == prev_chats.update(u, inner_g);
                            if a != u {
                                assert(chats@[a] == prev_chats[a]);
                            }
                        } else {
                            if a < prev_chats.len() {
                                assert(chats@[a] == prev_chats[a]);
                            } else {
                                assert(chats@[a] == inner_g);
                            }
                        }
                    }
                }
                let mut ids_src = identities;
                let ghost idents_before = idents@;
                let m = ids_src.len();
                assert(adapter_ids.len() == m);
                let mut t: usize = 0;
                while ids_src.len() > 0
                    invariant
                        dids_unique(idents@),
                        t <= adapter_ids.len(),
                        adapter_ids.len() <= usize::MAX,
                        ids_src@ =~= adapter_ids.skip(t as int),
                        forall|d: Seq<char>|
                            #[trigger] has_did(idents@, d) <==> (has_did(idents_before, d)
                                || has_did(adapter_ids.take(t as int), d)),
                    decreases ids_src@.len(),
                {
                    let one = ids_src.remove(0);
                    proof {
                        assert(one == adapter_ids[t as int]);
                        assert(ids_src@ =~= adapter_ids.skip(t as int + 1));
                        assert(adapter_ids.take(t as int + 1) =~= adapter_ids.take(
                            t as int,
                        ).push(adapter_ids[t as int]));
                        lemma_has_did_push(adapter_ids.take(t as int), adapter_ids[t as int]);
                    }
                    let ghost prev_idents = idents@;
                    let ghost one_g = one;
                    upsert_identity(&mut idents, one);
                    proof {
                        lemma_upserted_has_did(prev_idents, idents@, one_g);
                    }
                    t = t + 1;
                }
                proof {
                    assert(adapter_ids.take(t as int) =~= adapter_ids);
                    assert forall|d: Seq<char>|
                        has_did(idents@, d) <==> exists|k: int|
                            0 <= k < i + 1 && item_mentions(#[trigger] orig[k], d) by {
                        assert(item_mentions(orig[i as int], d) == has_did(adapter_ids, d));
                        if has_did(idents@, d) && !has_did(idents_before, d) {
                            assert(item_mentions(orig[i as int], d));
                        }
                    }
                }
            }
            None => {
                proof {
                    assert(forall|x: u128| !item_attaches(orig[i as int], x));
                    assert(forall|d: Seq<char>| !item_mentions(orig[i as int], d));
                }
            }
        }
        i = i + 1;
    }
    proof {
        assert(i == orig.len());
        assert forall|a: int|
            0 <= a < chats@.len() implies chat_sourced(orig, #[trigger] chats@[a]) by {
            let c = chats@[a];
            assert(exists|k: int| 0 <= k < i && item_has_inner(orig[k], c));
            let k = choose|k: int| 0 <= k < i && item_has_inner(orig[k], c);
            assert(item_has_inner(orig[k], c));
        }
        assert(chats_all_sourced(orig, chats@));
    }
    ConversationsPayload { chats, identities: idents }
}

/// A backend failure lifted into this layer's error taxonomy.
pub open spec fn lift_backend<T>(r: Result<T, BackendReason>) -> Result<T, ErrorKind> {
    match r {
        Ok(v) => Ok(v),
        Err(e) => Err(ErrorKind::BackendError(e)),
    }
}

/// The reply to a friend request: an already-existing request means the
/// desired end state holds, so it is downgraded to success; every other
/// failure propagates.
pub open spec fn friend_request_reply(res: Result<(), BackendReason>) -> Result<(), ErrorKind> {
    match res {
        Ok(_) => Ok(()),
        Err(BackendReason::FriendRequestExist) => Ok(()),
        Err(e) => Err(ErrorKind::BackendError(e)),
    }
}

/// Idempotence law for friend requests: a request succeeds both when the
/// backend accepts it and when it reports that the request already
/// exists — asking twice yields success twice, the second as a no-op —
/// while every other backend failure propagates.
pub proof fn lemma_friend_request_idempotent(e: BackendReason)
    ensures
        friend_request_reply(Ok(())) == Ok::<(), ErrorKind>(()),
        friend_request_reply(Err(BackendReason::FriendRequestExist)) == Ok::<(), ErrorKind>(()),
        e != BackendReason::FriendRequestExist ==> friend_request_reply(Err(e)) == Err::<
            (),
            ErrorKind,
        >(ErrorKind::BackendError(e)),
{
}

/// Decides the reply for an identity or friendship command from the
/// backend call's outcome.
pub fn handle_multipass_cmd(cmd: MultiPassCmd, outcome: MultiPassOutcome) -> (r: Reply)
    requires
        outcome_matches(WarpCmd::MultiPass(cmd), BackendOutcome::MultiPass(outcome)),
    ensures
        match outcome {
            MultiPassOutcome::Identity(res) => r == Reply::Identity(lift_backend(res)),
            MultiPassOutcome::Unit(res) => r == Reply::Unit(friend_request_reply(res)),
            MultiPassOutcome::Friends(res) => match res {
                Ok(lists) => match r {
                    Reply::FriendsList(Ok(p)) => p.friends.wf() && p.friends.initialized && (
                    forall|d: Seq<char>| #[trigger]
                        has_did(p.friends.all@, d) <==> has_did(lists.all@, d)) && (forall|
                        d: Seq<char>,
                    | #[trigger]
                        has_did(p.friends.blocked@, d) <==> has_did(lists.blocked@, d)) && (
                    forall|d: Seq<char>| #[trigger]
                        has_did(p.friends.incoming_requests@, d) <==> has_did(
                            lists.incoming_requests@,
                            d,
                        )) && (forall|d: Seq<char>| #[trigger]
                        has_did(p.friends.outgoing_requests@, d) <==> has_did(
                            lists.outgoing_requests@,
                            d,
                        )),
                    _ => false,
                },
                Err(e) => r == Reply::FriendsList(
                    Err::<FriendsPayload, ErrorKind>(ErrorKind::BackendError(e)),
                ),
            },
            MultiPassOutcome::Did(res) => r == Reply::Did(lift_backend(res)),
        },
{
    match outcome {
        MultiPassOutcome::Identity(res) => match res {
            Ok(id) => Reply::Identity(Ok(id)),
            Err(e) => Reply::Identity(Err(ErrorKind::BackendError(e))),
        },
        MultiPassOutcome::Unit(res) => match res {
            Ok(_) => Reply::Unit(Ok(())),
            Err(BackendReason::FriendRequestExist) => Reply::Unit(Ok(())),
            Err(e) => Reply::Unit(Err(ErrorKind::BackendError(e))),
        },
        MultiPassOutcome::Friends(res) => match res {
            Ok(lists) => Reply::FriendsList(Ok(FriendsPayload { friends: build_friends(lists) })),
            Err(e) => Reply::FriendsList(Err(ErrorKind::BackendError(e))),
        },
        MultiPassOutcome::Did(res) => match res {
            Ok(d) => Reply::Did(Ok(d)),
            Err(e) => Reply::Did(Err(ErrorKind::BackendError(e))),
        },
    }
}

/// Decides the reply for a storage command from the backend listing.
pub fn handle_constellation_cmd(cmd: ConstellationCmd, outcome: ConstellationOutcome) -> (r: Reply)
    ensures
        match outcome {
            ConstellationOutcome::Listing(res) => match res {
                Ok(items) => r == Reply::Listing(
                    Ok::<Storage, ErrorKind>((Storage { initialized: true, items })),
                ),
                Err(e) => r == Reply::Listing(
                    Err::<Storage, ErrorKind>(ErrorKind::BackendError(e)),
                ),
            },
        },
{
    match outcome {
        ConstellationOutcome::Listing(res) => match res {
            Ok(items) => Reply::Listing(Ok(Storage { initialized: true, items })),
            Err(e) => Reply::Listing(Err(ErrorKind::BackendError(e))),
        },
    }
}

/// Routing decision for `SendMessage`: the attachment-capable call is
/// used exactly when the attachment list is non-empty.
pub fn send_message_uses_attachments(attachments: &Vec<String>) -> (r: bool)
    ensures
        r == (attachments@.len() > 0),
{
    attachments.len() > 0
}

/// Where `DownloadAttachment` writes: the named file inside the chosen
/// directory.
pub fn download_target_path(directory: String, file_name: &String) -> (r: String)
    ensures
        r@ == directory@ + "/"@ + file_name@,
{
    directory.concat("/").concat(file_name.as_str())
}

/// Whether a successful deletion of `x` stands among the performed
/// deletions of the plan.
pub open spec fn spec_deleted(
    plan: Seq<u128>,
    deletes: Seq<Result<(), BackendReason>>,
    x: u128,
) -> bool {
    exists|k: int| 0 <= k < deletes.len() && deletes[k] is Ok && k < plan.len() && plan[k] == x
}

/// The stream budget the dispatcher needs for a command's outcome: one
/// fresh task number per stream it may attach.
pub open spec fn raygun_stream_budget(outcome: RayGunOutcome, streams: StreamManager) -> bool {
    match outcome {
        RayGunOutcome::Convs(res) => match res {
            Ok(items) => streams.spec_next_task() as int + items@.len() <= u64::MAX as int,
            Err(_) => true,
        },
        RayGunOutcome::Create(_) => streams.spec_next_task() < u64::MAX,
        _ => true,
    }
}

/// For `RemoveDirectConvs`: the host performed the planned deletions in
/// order and stopped right after the first failure; on a failed listing
/// nothing was deleted.
pub open spec fn remove_direct_consistent(cmd: RayGunCmd, outcome: RayGunOutcome) -> bool {
    match (cmd, outcome) {
        (
            RayGunCmd::RemoveDirectConvs { recipient },
            RayGunOutcome::RemoveDirect(rd),
        ) => match rd.list {
            Ok(listed) => deletes_consistent(
                spec_remove_direct_plan(listed@, recipient@),
                rd.deletes@,
            ),
            Err(_) => rd.deletes@.len() == 0,
        },
        _ => true,
    }
}

/// Decides the reply for a conversation or messaging command from the
/// backend outcome, and attaches or detaches conversation streams as the
/// command demands. `None` means the command cannot be answered (the
/// initial listing failed before the backend was ready): its slot is
/// abandoned and the caller retries.
pub fn handle_raygun_cmd(cmd: RayGunCmd, outcome: RayGunOutcome, streams: &mut StreamManager) -> (r:
    Option<Reply>)
    requires
        old(streams).wf(),
        outcome_matches(WarpCmd::RayGun(cmd), BackendOutcome::RayGun(outcome)),
        raygun_stream_budget(outcome, *old(streams)),
        remove_direct_consistent(cmd, outcome),
    ensures
        final(streams).wf(),
        match (cmd, outcome) {
            (_, RayGunOutcome::Convs(res)) => match res {
                Ok(items) => match r {
                    Some(Reply::Conversations(Ok(p))) => convs_unique(p.chats@) && dids_unique(
                        p.identities@,
                    ) && chats_all_sourced(items@, p.chats@) && (forall|d: Seq<char>|
                        has_did(p.identities@, d) <==> exists|k: int|
                            0 <= k < items@.len() && item_mentions(#[trigger] items@[k], d))
                        && (forall|k: int|
                        0 <= k < items@.len() ==> item_listed_in(#[trigger] items@[k], p.chats@))
                        && (forall|x: u128|
                        has_handle(final(streams)@, x) <==> (has_handle(old(streams)@, x)
                            || exists|k: int|
                            0 <= k < items@.len() && item_attaches(#[trigger] items@[k], x))),
                    _ => false,
                },
                Err(_) => r is None && final(streams)@ == old(streams)@,
            },
            (_, RayGunOutcome::Create(o)) => match o {
                CreateConvOutcome::Created { adapter, stream_accepted } => r == Some(
                    Reply::Chat(Ok::<ChatAdapter, ErrorKind>(adapter)),
                ) && (forall|x: u128|
                    has_handle(final(streams)@, x) <==> (has_handle(old(streams)@, x) || (
                    stream_accepted && x == adapter.inner.id))),
                CreateConvOutcome::Existing { adapter, stream_accepted } => r == Some(
                    Reply::Chat(Ok::<ChatAdapter, ErrorKind>(adapter)),
                ) && (forall|x: u128|
                    has_handle(final(streams)@, x) <==> (has_handle(old(streams)@, x) || (
                    stream_accepted && x == adapter.inner.id))),
                CreateConvOutcome::Failed(reason) => r == Some(
                    Reply::Chat(Err::<ChatAdapter, ErrorKind>(ErrorKind::BackendError(reason))),
                ) && final(streams)@ == old(streams)@,
            },
            (_, RayGunOutcome::Unit(res)) => r == Some(Reply::Unit(lift_backend(res))) && final(
                streams)@ == old(streams)@,
            (
                RayGunCmd::RemoveDirectConvs { recipient },
                RayGunOutcome::RemoveDirect(rd),
            ) => match rd.list {
                Ok(listed) => r == Some(Reply::Unit(spec_remove_direct_reply(rd.deletes@))) && (
                forall|x: u128|
                    has_handle(final(streams)@, x) <==> (has_handle(old(streams)@, x)
                        && !spec_deleted(
                        spec_remove_direct_plan(listed@, recipient@),
                        rd.deletes@,
                        x,
                    ))),
                Err(e) => r == Some(
                    Reply::Unit(Err::<(), ErrorKind>(ErrorKind::BackendError(e))),
                ) && final(streams)@ == old(streams)@,
            },
            _ => true,
        },
{
    match outcome {
        RayGunOutcome::Convs(res) => match res {
            Ok(items) => Some(
                Reply::Conversations(Ok(raygun_initialize_conversations(items, streams))),
            ),
            Err(_) => None,
        },
        RayGunOutcome::Create(o) => match o {
            CreateConvOutcome::Created { adapter, stream_accepted } => Some(
                attach_created_stream(adapter, stream_accepted, streams),
            ),
            CreateConvOutcome::Existing { adapter, stream_accepted } => Some(
                attach_created_stream(adapter, stream_accepted, streams),
            ),
            CreateConvOutcome::Failed(reason) => Some(
                Reply::Chat(Err(ErrorKind::BackendError(reason))),
            ),
        },
        RayGunOutcome::Unit(res) => match res {
            Ok(_) => Some(Reply::Unit(Ok(()))),
            Err(e) => Some(Reply::Unit(Err(ErrorKind::BackendError(e)))),
        },
        RayGunOutcome::RemoveDirect(rd) => match cmd {
            RayGunCmd::RemoveDirectConvs { recipient } => Some(
                remove_direct_convs(recipient, rd, streams),
            ),
            _ => {
                proof {
                    assert(false);
                }
                None
            }
        },
    }
}

/// Attaches the live stream of a newly created (or already existing)
/// conversation where the backend accepted it, and replies with the
/// adapted conversation either way: a degraded stream never fails the
/// creation.
fn attach_created_stream(
    adapter: ChatAdapter,
    stream_accepted: bool,
    streams: &mut StreamManager,
) -> (r: Reply)
    requires
        old(streams).wf(),
        old(streams).spec_next_task() < u64::MAX,
    ensures
        final(streams).wf(),
        r == Reply::Chat(Ok::<ChatAdapter, ErrorKind>(adapter)),
        forall|x: u128|
            has_handle(final(streams)@, x) <==> (has_handle(old(streams)@, x) || (stream_accepted
                && x == adapter.inner.id)),
{
    let id = adapter.inner.id;
    if stream_accepted {
        let ghost prev = streams@;
        match streams.add_stream(id, true) {
            Ok(eff) => {
                proof {
                    lemma_handle_upserted_membership(
                        prev,
                        streams@,
                        StreamHandle { conversation_id: id, task: eff.task },
                    );
                }
            }
            Err(_) => {
                proof {
                    assert(false);
                }
            }
        }
    }
    Reply::Chat(Ok(adapter))
}

/// Deletes every direct conversation involving the recipient, as the
/// plan names them: detaches the stream of each successfully deleted
/// conversation, and replies with the batch's first failure, if any.
fn remove_direct_convs(
    recipient: String,
    rd: RemoveDirectOutcome,
    streams: &mut StreamManager,
) -> (r: Reply)
    requires
        old(streams).wf(),
        match rd.list {
            Ok(listed) => deletes_consistent(
                spec_remove_direct_plan(listed@, recipient@),
                rd.deletes@,
            ),
            Err(_) => rd.deletes@.len() == 0,
        },
    ensures
        final(streams).wf(),
        match rd.list {
            Ok(listed) => r == Reply::Unit(spec_remove_direct_reply(rd.deletes@)) && (forall|
                x: u128,
            |
                has_handle(final(streams)@, x) <==> (has_handle(old(streams)@, x) && !spec_deleted(
                    spec_remove_direct_plan(listed@, recipient@),
                    rd.deletes@,
                    x,
                ))),
            Err(e) => r == Reply::Unit(Err::<(), ErrorKind>(ErrorKind::BackendError(e))) && final(
                streams)@ == old(streams)@,
        },
{
    let RemoveDirectOutcome { list, deletes } = rd;
    match list {
        Ok(listed) => {
            let plan = remove_direct_plan(&listed, &recipient);
            let n = deletes.len();
            let mut k: usize = 0;
            while k < n
                invariant
                    streams.wf(),
                    k <= n,
                    n == deletes@.len(),
                    deletes@.len() <= plan@.len(),
                    plan@ == spec_remove_direct_plan(listed@, recipient@),
                    forall|x: u128|
                        has_handle(streams@, x) <==> (has_handle(old(streams)@, x) && !(exists|
                            j: int,
                        |
                            0 <= j < k && deletes@[j] is Ok && plan@[j] == x)),
                decreases n - k,
            {
                let ok = match deletes[k] {
                    Ok(_) => true,
                    Err(_) => false,
                };
                if ok {
                    let ghost prev = streams@;
                    let removed = streams.remove_stream(plan[k]);
                    proof {
                        match removed {
                            Some(t) => {
                                let i = choose|i: int|
                                    0 <= i < prev.len() && prev[i] == (StreamHandle {
                                        conversation_id: plan@[k as int],
                                        task: t,
                                    }) && streams@ == prev.remove(i);
                                crate::streams::lemma_handle_removed_membership(prev, streams@, i);
                            }
                            None => {}
                        }
                        assert forall|x: u128|
                            has_handle(streams@, x) <==> (has_handle(old(streams)@, x) && !(exists|
                                j: int,
                            |
                                0 <= j < k + 1 && deletes@[j] is Ok && plan@[j] == x)) by {
                            assert(deletes@[k as int] is Ok && plan@[k as int]
                                == plan@[k as int]);
                        }
                    }
                } else {
                    proof {
                        assert forall|x: u128|
                            has_handle(streams@, x) <==> (has_handle(old(streams)@, x) && !(exists|
                                j: int,
                            |
                                0 <= j < k + 1 && deletes@[j] is Ok && plan@[j] == x)) by {}
                    }
                }
                k = k + 1;
            }
            let rep: Result<(), ErrorKind> = if deletes.len() > 0 {
                match deletes[deletes.len() - 1] {
                    Ok(_) => Ok(()),
                    Err(e) => Err(ErrorKind::BackendError(e)),
                }
            } else {
                Ok(())
            };
            Reply::Unit(rep)
        }
        Err(e) => Reply::Unit(Err(ErrorKind::BackendError(e))),
    }
}

} // verus!
