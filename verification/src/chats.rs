//! Conversations as the snapshot stores them, keyed by conversation id.

use vstd::prelude::*;
use crate::identity::Identity;

verus! {

/// Whether a conversation has exactly two parties or more.
#[derive(Clone, Copy, PartialEq, Eq, Structural, Debug)]
pub enum ConversationKind {
    Direct,
    Group,
}

/// One conversation of the snapshot.
#[derive(Clone, Debug)]
pub struct Chat {
    /// The backend's conversation id.
    pub id: u128,
    pub kind: ConversationKind,
    /// Dids of the other participants.
    pub recipients: Vec<String>,
    /// Messages that arrived since the conversation was last read.
    pub unreads: u32,
    /// False once the conversation's live event stream closed unexpectedly.
    pub live: bool,
}

/// A conversation as the backend hands it over, together with the
/// identities of its participants (the snapshot keeps those separately).
#[derive(Clone, Debug)]
pub struct ChatAdapter {
    pub inner: Chat,
    pub identities: Vec<Identity>,
}

/// Whether some entry of `s` carries the conversation id `id`.
pub open spec fn has_conv(s: Seq<Chat>, id: u128) -> bool {
    exists|i: int| 0 <= i < s.len() && s[i].id == id
}

/// All conversation ids in `s` are distinct.
pub open spec fn convs_unique(s: Seq<Chat>) -> bool {
    forall|i: int, j: int| 0 <= i < j < s.len() ==> s[i].id != s[j].id
}

/// `new` is `prev` with `c` either replacing the entry of the same id or
/// appended if none carried it.
pub open spec fn conv_upserted(prev: Seq<Chat>, new: Seq<Chat>, c: Chat) -> bool {
    if has_conv(prev, c.id) {
        exists|i: int| 0 <= i < prev.len() && prev[i].id == c.id && new == prev.update(i, c)
    } else {
        new == prev.push(c)
    }
}

/// `new` is `prev` with the entry of id `id` removed, or `prev` itself
/// if none carried it.
pub open spec fn conv_removed(prev: Seq<Chat>, new: Seq<Chat>, id: u128) -> bool {
    if has_conv(prev, id) {
        exists|i: int| 0 <= i < prev.len() && prev[i].id == id && new == prev.remove(i)
    } else {
        new == prev
    }
}

/// Membership after an upsert: exactly the old ids plus the new one.
pub proof fn lemma_conv_upserted_membership(prev: Seq<Chat>, new: Seq<Chat>, c: Chat)
    requires
        conv_upserted(prev, new, c),
    ensures
        forall|x: u128| has_conv(new, x) <==> (has_conv(prev, x) || x == c.id),
{
    assert forall|x: u128| has_conv(new, x) implies (has_conv(prev, x) || x == c.id) by {
        let w = choose|i: int| 0 <= i < new.len() && new[i].id == x;
        if has_conv(prev, c.id) {
            let u = choose|i: int| 0 <= i < prev.len() && prev[i].id == c.id && new == prev.update(i, c);
            if w != u {
                assert(new[w] == prev[w]);
            }
        } else {
            if w < prev.len() {
                assert(new[w] == prev[w]);
            }
        }
    }
    assert forall|x: u128| (has_conv(prev, x) || x == c.id) implies has_conv(new, x) by {
        if has_conv(prev, c.id) {
            let u = choose|i: int| 0 <= i < prev.len() && prev[i].id == c.id && new == prev.update(i, c);
            assert(new[u].id == c.id);
            if x != c.id && has_conv(prev, x) {
                let w = choose|i: int| 0 <= i < prev.len() && prev[i].id == x;
                assert(new[w] == prev[w]);
            }
        } else {
            assert(new[new.len() - 1] == c);
            if x != c.id && has_conv(prev, x) {
                let w = choose|i: int| 0 <= i < prev.len() && prev[i].id == x;
                assert(new[w] == prev[w]);
            }
        }
    }
}

/// The conversation map of the snapshot: a list unique by id.
#[derive(Clone, Debug)]
pub struct Chats {
    /// Becomes true once the initial conversation listing was folded in.
    pub initialized: bool,
    pub all: Vec<Chat>,
}

impl Chats {
    pub open spec fn wf(self) -> bool {
        convs_unique(self.all@)
    }

    /// An empty, not yet initialized conversation map.
    pub fn empty() -> (r: Chats)
        ensures
            r.wf(),
            !r.initialized,
            r.all@ =~= Seq::<Chat>::empty(),
    {
        Chats { initialized: false, all: Vec::new() }
    }
}

/// Index of the entry with conversation id `id`, searched from the front.
pub fn find_conv(v: &Vec<Chat>, id: u128) -> (r: Option<usize>)
    ensures
        match r {
            Some(i) => i < v@.len() && v@[i as int].id == id,
            None => !has_conv(v@, id),
        },
{
    let mut j: usize = 0;
    while j < v.len()
        invariant
            j <= v@.len(),
            forall|k: int| 0 <= k < j ==> v@[k].id != id,
        decreases v@.len() - j,
    {
        if v[j].id == id {
            return Some(j);
        }
        j = j + 1;
    }
    None
}

/// Inserts `c`, replacing any entry that already carries its id.
pub fn upsert_chat(v: &mut Vec<Chat>, c: Chat)
    requires
        convs_unique(old(v)@),
    ensures
        conv_upserted(old(v)@, final(v)@, c),
        convs_unique(final(v)@),
        has_conv(final(v)@, c.id),
{
    let id = c.id;
    match find_conv(v, id) {
        Some(i) => {
            v.set(i, c);
            assert(v@[i as int].id == id);
        }
        None => {
            v.push(c);
            assert(v@[v@.len() - 1].id == id);
        }
    }
}

/// Removes the entry with id `id`; does nothing if none carries it.
pub fn remove_chat(v: &mut Vec<Chat>, id: u128)
    requires
        convs_unique(old(v)@),
    ensures
        conv_removed(old(v)@, final(v)@, id),
        convs_unique(final(v)@),
        !has_conv(final(v)@, id),
{
    match find_conv(v, id) {
        Some(i) => {
            v.remove(i);
            assert forall|a: int| 0 <= a < v@.len() implies v@[a].id != id by {
                if a < i {
                    assert(v@[a] == old(v)@[a]);
                } else {
                    assert(v@[a] == old(v)@[a + 1]);
                }
            }
        }
        None => {}
    }
}

} // verus!
