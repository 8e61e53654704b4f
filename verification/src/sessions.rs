//! The subscribers that notifications go to.

use std::collections::HashMap;
use vstd::prelude::*;
use vstd::std_specs::iter::IteratorSpec;

verus! {

broadcast use vstd::std_specs::hash::group_hash_axioms;

/// Names a subscriber's sink: the capability to push text frames to it. The
/// capability itself stays with the transport, which finds it by this handle.
#[derive(Clone, Copy, Debug, PartialEq, Eq, Structural)]
pub struct SinkHandle(pub u64);

/// The sink that session `id` has, if the session is registered.
pub open spec fn sink_of(sessions: Map<i32, SinkHandle>, id: i32) -> Option<SinkHandle> {
    if sessions.contains_key(id) {
        Some(sessions[id])
    } else {
        None
    }
}

/// The sinks of those sessions in `failed` that are registered, each once,
/// in the order in which `failed` names them first.
pub open spec fn sinks_of(sessions: Map<i32, SinkHandle>, failed: Seq<i32>) -> Seq<SinkHandle>
    decreases failed.len(),
{
    if failed.len() == 0 {
        Seq::empty()
    } else {
        let earlier = failed.drop_last();
        let id = failed.last();
        if sessions.contains_key(id) && !earlier.contains(id) {
            sinks_of(sessions, earlier).push(sessions[id])
        } else {
            sinks_of(sessions, earlier)
        }
    }
}

/// The sinks of the open sessions, by session id. Every session is meant
/// to have a sink of its own.
pub struct SessionRegistry {
    sinks: HashMap<i32, SinkHandle>,
}

impl View for SessionRegistry {
    type V = Map<i32, SinkHandle>;

    closed spec fn view(&self) -> Map<i32, SinkHandle> {
        self.sinks@
    }
}

impl SessionRegistry {
    /// A registry without sessions.
    pub fn new() -> (registry: SessionRegistry)
        ensures
            registry@ == Map::<i32, SinkHandle>::empty(),
    {
        SessionRegistry { sinks: HashMap::new() }
    }

    /// Every registry holds finitely many sessions.
    pub proof fn lemma_finite(self)
        ensures
            self@.dom().finite(),
    {
    }

    /// Registers `sink` for session `id`, in place of any sink that the
    /// session had, and returns the sink that it had.
    pub fn add(&mut self, id: i32, sink: SinkHandle) -> (displaced: Option<SinkHandle>)
        ensures
            final(self)@ == old(self)@.insert(id, sink),
            displaced == sink_of(old(self)@, id),
    {
        self.sinks.insert(id, sink)
    }

    /// Forgets session `id`, if it is there, and returns the sink that it
    /// had.
    pub fn remove(&mut self, id: i32) -> (dropped: Option<SinkHandle>)
        ensures
            final(self)@ == old(self)@.remove(id),
            dropped == sink_of(old(self)@, id),
    {
        self.sinks.remove(&id)
    }

    /// Whether session `id` is registered.
    pub fn contains(&self, id: i32) -> (found: bool)
        ensures
            found == self@.contains_key(id),
    {
        self.sinks.contains_key(&id)
    }

    /// The sink of session `id`, if it is registered.
    pub fn sink(&self, id: i32) -> (sink: Option<SinkHandle>)
        ensures
            sink == sink_of(self@, id),
    {
        match self.sinks.get(&id) {
            Some(sink) => Some(*sink),
            None => None,
        }
    }

    /// Number of registered sessions.
    pub fn len(&self) -> (count: usize)
        ensures
            count == self@.len(),
            self@.dom().finite(),
    {
        self.sinks.len()
    }

    /// Every registered session with its sink, each once, in no particular
    /// order.
    pub fn targets(&self) -> (targets: Vec<(i32, SinkHandle)>)
        ensures
            targets@.no_duplicates(),
            targets@.len() == self@.len(),
            forall|i: int|
                0 <= i < targets@.len() ==> self@.contains_key(#[trigger] targets@[i].0)
                    && self@[targets@[i].0] == targets@[i].1,
            forall|id: i32| self@.contains_key(id) ==> targets@.contains((id, self@[id])),
    {
        let mut out: Vec<(i32, SinkHandle)> = Vec::new();
        let ghost all = self.sinks.iter().remaining();
        for pair in it: self.sinks.iter()
            invariant
                it.seq() == all,
                out@.len() == it.index(),
                forall|j: int|
                    0 <= j < out@.len() ==> #[trigger] out@[j] == (*it.seq()[j].0, *it.seq()[j].1),
        {
            out.push((*pair.0, *pair.1));
        }
        assert forall|id: i32| self@.contains_key(id) implies out@.contains((id, self@[id])) by {
            assert(all.contains((&id, &self@[id])));
            let i = choose|i: int| 0 <= i < all.len() && all[i] == (&id, &self@[id]);
            assert(out@[i] == (id, self@[id]));
        }
        out
    }

    /// Ends a broadcast: forgets every session in `failed`, the sessions
    /// whose sink did not take the text, and returns their sinks. The other
    /// sessions stay as they are.
    pub fn prune(&mut self, failed: &Vec<i32>) -> (dropped: Vec<SinkHandle>)
        ensures
            final(self)@ == old(self)@.remove_keys(failed@.to_set()),
            dropped@ == sinks_of(old(self)@, failed@),
    {
        let ghost before = self@;
        let mut dropped: Vec<SinkHandle> = Vec::new();
        let mut i: usize = 0;
        assert(before.remove_keys(failed@.take(0).to_set()) =~= before);
        while i < failed.len()
            invariant
                i <= failed@.len(),
                self@ == before.remove_keys(failed@.take(i as int).to_set()),
                dropped@ == sinks_of(before, failed@.take(i as int)),
            decreases failed@.len() - i,
        {
            let ghost earlier = failed@.take(i as int);
            let ghost upto = failed@.take(i + 1);
            let id = failed[i];
            assert(upto.drop_last() =~= earlier && upto.last() == id);
            assert(self@.contains_key(id) <==> before.contains_key(id) && !earlier.contains(id));
            match self.sinks.remove(&id) {
                Some(sink) => dropped.push(sink),
                None => {},
            }
            assert(self@ =~= before.remove_keys(upto.to_set())) by {
                assert forall|k: i32| upto.to_set().contains(k) <==> earlier.to_set().contains(k)
                    || k == id by {
                    if earlier.contains(k) {
                        let j = earlier.index_of(k);
                        assert(upto[j] == k);
                    }
                    if k == id {
                        assert(upto[i as int] == k);
                    }
                    if upto.contains(k) && k != id {
                        let j = upto.index_of(k);
                        assert(earlier[j] == k);
                    }
                }
            }
            i += 1;
        }
        assert(failed@.take(i as int) =~= failed@);
        dropped
    }
}

} // verus!
