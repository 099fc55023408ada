//! The registry of live sessions, owned by the backend process.
//!
//! It maps a session's id to the handle under which the session can be
//! reached. Ids are drawn at random and not checked against the ids in use:
//! a session that draws a taken id replaces the entry that was there.
//! Nothing here locks: the registry is meant to be owned by one task that
//! handles its requests one after the other.

use crate::socket::message::{Connect, Disconnect};
use rand::rngs::ThreadRng;
use rand::Rng;
use std::collections::HashMap;
use vstd::prelude::*;
use vstd::std_specs::hash::*;

verus! {

broadcast use vstd::std_specs::hash::group_hash_axioms;

#[verifier::external_type_specification]
#[verifier::external_body]
pub struct ExThreadRng(rand::rngs::ThreadRng);

/// `rand::thread_rng`: a handle to the thread's generator, seeded by the
/// system. Trusted to return; nothing is claimed of the handle.
#[verifier::external_body]
pub(crate) fn thread_generator() -> ThreadRng {
    rand::thread_rng()
}

/// `Rng::gen::<usize>`: the next random number. Nothing is claimed of it:
/// any `usize` may come back, and two calls may give the same one.
#[verifier::external_body]
pub(crate) fn random_id(rng: &mut ThreadRng) -> usize {
    rng.gen::<usize>()
}

/// The entries after a session was stored under `id`.
pub open spec fn after_connect<H>(entries: Map<usize, H>, id: usize, addr: H) -> Map<usize, H> {
    entries.insert(id, addr)
}

/// The entries after the session with `id` was taken out. Without such an
/// entry nothing changes.
pub open spec fn after_disconnect<H>(entries: Map<usize, H>, id: usize) -> Map<usize, H> {
    entries.remove(id)
}

/// The entries after one session was stored for each id, in order.
pub open spec fn after_connects<H>(entries: Map<usize, H>, ids: Seq<usize>, addrs: Seq<H>) -> Map<
    usize,
    H,
>
    recommends
        ids.len() == addrs.len(),
    decreases ids.len(),
{
    if ids.len() == 0 {
        entries
    } else {
        after_connect(
            after_connects(entries, ids.drop_last(), addrs.drop_last()),
            ids.last(),
            addrs.last(),
        )
    }
}

/// The registry: session id to session handle.
pub struct Server<H> {
    sessions: HashMap<usize, H>,
    rng: ThreadRng,
}

impl<H> View for Server<H> {
    type V = Map<usize, H>;

    closed spec fn view(&self) -> Map<usize, H> {
        self.sessions@
    }
}

impl<H> Default for Server<H> {
    /// An empty registry.
    fn default() -> (r: Self)
        ensures
            r@ == Map::<usize, H>::empty(),
    {
        Server { sessions: HashMap::new(), rng: thread_generator() }
    }
}

impl<H> Server<H> {
    /// Stores a session under an id, replacing what was stored under it.
    pub fn register(&mut self, id: usize, addr: H)
        ensures
            final(self)@ == after_connect(old(self)@, id, addr),
    {
        self.sessions.insert(id, addr);
    }

    /// Handles a `Connect`: draws a random id, stores the session under it
    /// and returns the id.
    ///
    /// Whatever id was drawn, the session is stored under the id returned,
    /// and every other entry is as before.
    pub fn connect(&mut self, msg: Connect<H>) -> (id: usize)
        ensures
            final(self)@ == after_connect(old(self)@, id, msg.addr),
    {
        let id = random_id(&mut self.rng);
        self.register(id, msg.addr);
        id
    }

    /// Handles a `Disconnect`: takes the entry with that id out. An id
    /// without an entry is no error; nothing changes.
    pub fn disconnect(&mut self, msg: Disconnect)
        ensures
            final(self)@ == after_disconnect(old(self)@, msg.id),
    {
        self.sessions.remove(&msg.id);
    }

    /// The number of sessions registered.
    pub fn len(&self) -> (n: usize)
        ensures
            n == self@.len(),
    {
        self.sessions.len()
    }

    /// Whether a session is registered under the id.
    pub fn contains(&self, id: usize) -> (r: bool)
        ensures
            r == self@.contains_key(id),
    {
        self.sessions.contains_key(&id)
    }
}

/// Lifecycle: a disconnect with the id that a connect returned undoes the
/// connect. The entries are what they were, less any entry that the id had
/// replaced; from an empty registry, none are left.
pub proof fn lemma_connect_then_disconnect<H>(entries: Map<usize, H>, id: usize, addr: H)
    ensures
        after_disconnect(after_connect(entries, id, addr), id) == after_disconnect(entries, id),
        !entries.contains_key(id) ==> after_disconnect(after_connect(entries, id, addr), id)
            == entries,
        entries == Map::<usize, H>::empty() ==> after_disconnect(
            after_connect(entries, id, addr),
            id,
        ).len() == 0,
{
    assert(entries.insert(id, addr).remove(id) =~= entries.remove(id));
    if !entries.contains_key(id) {
        assert(entries.remove(id) =~= entries);
    }
    if entries == Map::<usize, H>::empty() {
        assert(entries.remove(id) =~= Map::<usize, H>::empty());
    }
}

/// A second disconnect with the same id changes nothing.
pub proof fn lemma_disconnect_twice<H>(entries: Map<usize, H>, id: usize)
    ensures
        after_disconnect(after_disconnect(entries, id), id) == after_disconnect(entries, id),
        !after_disconnect(entries, id).contains_key(id),
{
    assert(entries.remove(id).remove(id) =~= entries.remove(id));
}

/// Many connects: where the ids drawn are pairwise distinct, an empty
/// registry holds one entry for each of them afterwards, under exactly those
/// ids. (How likely distinct ids are is a matter of the generator and is not
/// stated here.)
pub proof fn lemma_distinct_ids_all_registered<H>(ids: Seq<usize>, addrs: Seq<H>)
    requires
        ids.len() == addrs.len(),
        ids.no_duplicates(),
    ensures
        after_connects(Map::<usize, H>::empty(), ids, addrs).dom() == ids.to_set(),
        after_connects(Map::<usize, H>::empty(), ids, addrs).len() == ids.len(),
        forall|i: int|
            0 <= i < ids.len() ==> after_connects(Map::<usize, H>::empty(), ids, addrs)[#[trigger] ids[i]]
                == addrs[i],
    decreases ids.len(),
{
    let empty = Map::<usize, H>::empty();
    let all = after_connects(empty, ids, addrs);
    if ids.len() == 0 {
        assert(all.dom() =~= ids.to_set());
        assert(ids.to_set() =~= Set::<usize>::empty());
    } else {
        let front = ids.drop_last();
        let before = after_connects(empty, front, addrs.drop_last());
        lemma_distinct_ids_all_registered(front, addrs.drop_last());
        assert(!front.to_set().contains(ids.last())) by {
            if front.to_set().contains(ids.last()) {
                let j = choose|j: int| 0 <= j < front.len() && front[j] == ids.last();
                assert(ids[j] == ids[ids.len() - 1]);
            }
        }
        assert(ids.to_set() =~= front.to_set().insert(ids.last())) by {
            assert forall|x: usize| ids.to_set().contains(x) implies front.to_set().insert(
                ids.last(),
            ).contains(x) by {
                let j = choose|j: int| 0 <= j < ids.len() && ids[j] == x;
                if j < ids.len() - 1 {
                    assert(front[j] == x);
                }
            }
            assert forall|x: usize| front.to_set().insert(ids.last()).contains(
                x,
            ) implies ids.to_set().contains(x) by {
                if x == ids.last() {
                    assert(ids[ids.len() - 1] == x);
                } else {
                    let j = choose|j: int| 0 <= j < front.len() && front[j] == x;
                    assert(ids[j] == x);
                }
            }
        }
        assert(all.dom() =~= before.dom().insert(ids.last()));
        assert(before.dom().finite());
        assert forall|i: int| 0 <= i < ids.len() implies all[#[trigger] ids[i]] == addrs[i] by {
            if i < ids.len() - 1 {
                assert(front[i] == ids[i]);
                assert(ids[i] != ids[ids.len() - 1]);
                assert(addrs.drop_last()[i] == addrs[i]);
            }
        }
    }
}

} // verus!
