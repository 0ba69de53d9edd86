//! Identities and the friends portion of the application snapshot.
//!
//! Identities are keyed by their decentralized identifier (did) string.
//! Each list of the `Friends` record holds at most one entry per did.

use vstd::prelude::*;

verus! {

/// Presence of a friend as last reported by the backend.
#[derive(Clone, Copy, PartialEq, Eq, Structural, Debug)]
pub enum IdentityStatus {
    Online,
    Offline,
}

/// A user identity as the snapshot stores it: the did key, the display
/// name, and the last known presence.
#[derive(Clone, Debug)]
pub struct Identity {
    pub did_key: String,
    pub username: String,
    pub status: IdentityStatus,
}

/// Whether some entry of `s` carries the did `d`.
pub open spec fn has_did(s: Seq<Identity>, d: Seq<char>) -> bool {
    exists|i: int| 0 <= i < s.len() && s[i].did_key@ == d
}

/// All dids in `s` are distinct.
pub open spec fn dids_unique(s: Seq<Identity>) -> bool {
    forall|i: int, j: int|
        0 <= i < j < s.len() ==> s[i].did_key@ != s[j].did_key@
}

/// `new` is `old` with `id` either replacing the entry that carried its
/// did or appended if no entry did.
pub open spec fn upserted(prev: Seq<Identity>, new: Seq<Identity>, id: Identity) -> bool {
    if has_did(prev, id.did_key@) {
        exists|i: int|
            0 <= i < prev.len() && prev[i].did_key@ == id.did_key@ && new == prev.update(i, id)
    } else {
        new == prev.push(id)
    }
}

/// `new` is `old` with the entry carrying did `d` removed, or `old`
/// itself if no entry carried it.
pub open spec fn removed_did(prev: Seq<Identity>, new: Seq<Identity>, d: Seq<char>) -> bool {
    if has_did(prev, d) {
        exists|i: int| 0 <= i < prev.len() && prev[i].did_key@ == d && new == prev.remove(i)
    } else {
        new == prev
    }
}

/// `new` is `old` with the entry carrying did `d` set to status `st`
/// (fields other than the status kept), or `old` if no entry carried it.
pub open spec fn status_set(
    prev: Seq<Identity>,
    new: Seq<Identity>,
    d: Seq<char>,
    st: IdentityStatus,
) -> bool {
    if has_did(prev, d) {
        exists|i: int|
            0 <= i < prev.len() && prev[i].did_key@ == d && new == prev.update(
                i,
                Identity {
                    did_key: prev[i].did_key,
                    username: prev[i].username,
                    status: st,
                },
            )
    } else {
        new == prev
    }
}

/// Membership after a push: exactly the old dids plus the new one.
pub proof fn lemma_has_did_push(s: Seq<Identity>, x: Identity)
    ensures
        forall|d: Seq<char>| has_did(s.push(x), d) <==> (has_did(s, d) || x.did_key@ == d),
{
    assert forall|d: Seq<char>| has_did(s.push(x), d) implies (has_did(s, d) || x.did_key@
        == d) by {
        let w = choose|i: int| 0 <= i < s.push(x).len() && s.push(x)[i].did_key@ == d;
        if w < s.len() {
            assert(s.push(x)[w] == s[w]);
        }
    }
    assert forall|d: Seq<char>| (has_did(s, d) || x.did_key@ == d) implies has_did(s.push(x), d) by {
        assert(s.push(x)[s.len() as int] == x);
        if has_did(s, d) && x.did_key@ != d {
            let w = choose|i: int| 0 <= i < s.len() && s[i].did_key@ == d;
            assert(s.push(x)[w] == s[w]);
        }
    }
}

/// Membership after an upsert: exactly the old dids plus the new one.
pub proof fn lemma_upserted_has_did(prev: Seq<Identity>, new: Seq<Identity>, id: Identity)
    requires
        upserted(prev, new, id),
    ensures
        forall|d: Seq<char>| has_did(new, d) <==> (has_did(prev, d) || d == id.did_key@),
{
    assert forall|d: Seq<char>| has_did(new, d) implies (has_did(prev, d) || d == id.did_key@) by {
        let w = choose|i: int| 0 <= i < new.len() && new[i].did_key@ == d;
        if has_did(prev, id.did_key@) {
            let u = choose|i: int|
                0 <= i < prev.len() && prev[i].did_key@ == id.did_key@ && new == prev.update(i, id);
            if w != u {
                assert(new[w] == prev[w]);
            }
        } else {
            if w < prev.len() {
                assert(new[w] == prev[w]);
            }
        }
    }
    assert forall|d: Seq<char>| (has_did(prev, d) || d == id.did_key@) implies has_did(new, d) by {
        if has_did(prev, id.did_key@) {
            let u = choose|i: int|
                0 <= i < prev.len() && prev[i].did_key@ == id.did_key@ && new == prev.update(i, id);
            assert(new[u].did_key@ == id.did_key@);
            if d != id.did_key@ && has_did(prev, d) {
                let w = choose|i: int| 0 <= i < prev.len() && prev[i].did_key@ == d;
                assert(new[w] == prev[w]);
            }
        } else {
            assert(new[new.len() - 1] == id);
            if d != id.did_key@ && has_did(prev, d) {
                let w = choose|i: int| 0 <= i < prev.len() && prev[i].did_key@ == d;
                assert(new[w] == prev[w]);
            }
        }
    }
}

/// Index of the entry carrying did `d`, searched from the front.
fn find_did(v: &Vec<Identity>, d: &String) -> (r: Option<usize>)
    ensures
        match r {
            Some(i) => i < v@.len() && v@[i as int].did_key@ == d@,
            None => !has_did(v@, d@),
        },
{
    let mut j: usize = 0;
    while j < v.len()
        invariant
            j <= v@.len(),
            forall|k: int| 0 <= k < j ==> v@[k].did_key@ != d@,
        decreases v@.len() - j,
    {
        if v[j].did_key.eq(d) {
            return Some(j);
        }
        j = j + 1;
    }
    None
}

/// Inserts `id`, replacing any entry that already carries its did.
pub fn upsert_identity(v: &mut Vec<Identity>, id: Identity)
    requires
        dids_unique(old(v)@),
    ensures
        upserted(old(v)@, final(v)@, id),
        dids_unique(final(v)@),
        has_did(final(v)@, id.did_key@),
{
    let d = id.did_key.clone();
    match find_did(v, &d) {
        Some(i) => {
            v.set(i, id);
            assert(v@[i as int] == id);
        }
        None => {
            v.push(id);
            assert(v@[v@.len() - 1] == id);
        }
    }
}

/// Removes the entry carrying did `d`; does nothing if none does.
pub fn remove_identity(v: &mut Vec<Identity>, d: &String)
    requires
        dids_unique(old(v)@),
    ensures
        removed_did(old(v)@, final(v)@, d@),
        dids_unique(final(v)@),
        !has_did(final(v)@, d@),
{
    match find_did(v, d) {
        Some(i) => {
            v.remove(i);
            assert forall|a: int| 0 <= a < v@.len() implies v@[a].did_key@ != d@ by {
                if a < i {
                    assert(v@[a] == old(v)@[a]);
                } else {
                    assert(v@[a] == old(v)@[a + 1]);
                }
            }
        }
        None => {}
    }
}

/// Sets the status of the entry carrying did `d`; does nothing if none does.
pub fn set_identity_status(v: &mut Vec<Identity>, d: &String, st: IdentityStatus)
    requires
        dids_unique(old(v)@),
    ensures
        status_set(old(v)@, final(v)@, d@, st),
        dids_unique(final(v)@),
{
    match find_did(v, d) {
        Some(i) => {
            let prev = &v[i];
            let updated = Identity {
                did_key: prev.did_key.clone(),
                username: prev.username.clone(),
                status: st,
            };
            v.set(i, updated);
        }
        None => {}
    }
}

/// `new` is `prev` with the entry carrying `id`'s did replaced by `id`,
/// or `prev` itself if no entry carried it (no insertion).
pub open spec fn updated_did(prev: Seq<Identity>, new: Seq<Identity>, id: Identity) -> bool {
    if has_did(prev, id.did_key@) {
        exists|i: int|
            0 <= i < prev.len() && prev[i].did_key@ == id.did_key@ && new == prev.update(i, id)
    } else {
        new == prev
    }
}

/// Replaces the entry carrying `id`'s did by `id`; does nothing if none
/// does.
pub fn update_identity(v: &mut Vec<Identity>, id: Identity)
    requires
        dids_unique(old(v)@),
    ensures
        updated_did(old(v)@, final(v)@, id),
        dids_unique(final(v)@),
{
    let d = id.did_key.clone();
    match find_did(v, &d) {
        Some(i) => {
            v.set(i, id);
        }
        None => {}
    }
}

/// The friends portion of the snapshot. Each list holds at most one
/// entry per did.
#[derive(Clone, Debug)]
pub struct Friends {
    /// Becomes true once the friends fields have been retrieved from the
    /// backend.
    pub initialized: bool,
    /// All active friends.
    pub all: Vec<Identity>,
    /// Friends the user has blocked.
    pub blocked: Vec<Identity>,
    /// Incoming friend requests.
    pub incoming_requests: Vec<Identity>,
    /// Outgoing friend requests.
    pub outgoing_requests: Vec<Identity>,
}

impl Friends {
    /// Every list of the record keeps its dids distinct.
    pub open spec fn wf(self) -> bool {
        dids_unique(self.all@) && dids_unique(self.blocked@) && dids_unique(
            self.incoming_requests@,
        ) && dids_unique(self.outgoing_requests@)
    }

    /// An empty, not yet initialized friends record.
    pub fn empty() -> (r: Friends)
        ensures
            r.wf(),
            !r.initialized,
            r.all@ =~= Seq::<Identity>::empty(),
            r.blocked@ =~= Seq::<Identity>::empty(),
            r.incoming_requests@ =~= Seq::<Identity>::empty(),
            r.outgoing_requests@ =~= Seq::<Identity>::empty(),
    {
        Friends {
            initialized: false,
            all: Vec::new(),
            blocked: Vec::new(),
            incoming_requests: Vec::new(),
            outgoing_requests: Vec::new(),
        }
    }
}

} // verus!
