//! The two registries of the server: the cancellable calls in flight and the
//! resources that the peer has subscribed to.

use crate::channel::fire;
use crate::keyed::TextMap;
use vstd::prelude::*;

verus! {

/// The calls in flight, each with the signal that cancels it.
pub type ActiveCalls = Map<Seq<char>, tokio::sync::oneshot::Sender<()>>;

/// The calls in flight once a call has begun under `id`. An entry that was
/// there under the same id is replaced.
pub open spec fn after_begin(
    active: ActiveCalls,
    id: Seq<char>,
    signal: tokio::sync::oneshot::Sender<()>,
) -> ActiveCalls {
    active.insert(id, signal)
}

/// The calls in flight once the call under `id` has been cancelled.
pub open spec fn after_cancel(active: ActiveCalls, id: Seq<char>) -> ActiveCalls {
    active.remove(id)
}

/// The calls in flight once the call under `id` has ended.
pub open spec fn after_end(active: ActiveCalls, id: Seq<char>) -> ActiveCalls {
    active.remove(id)
}

/// Cancelling a call a second time changes nothing and finds no call to
/// cancel.
pub proof fn lemma_cancel_is_idempotent(active: ActiveCalls, id: Seq<char>)
    ensures
        !after_cancel(active, id).contains_key(id),
        after_cancel(after_cancel(active, id), id) == after_cancel(active, id),
{
    assert(active.remove(id).remove(id) == active.remove(id));
}

/// Ending a call that has been cancelled changes nothing.
pub proof fn lemma_end_after_cancel(active: ActiveCalls, id: Seq<char>)
    ensures
        after_end(after_cancel(active, id), id) == after_cancel(active, id),
{
    assert(active.remove(id).remove(id) == active.remove(id));
}

/// Ending a call twice is the same as ending it once.
pub proof fn lemma_end_is_idempotent(active: ActiveCalls, id: Seq<char>)
    ensures
        after_end(after_end(active, id), id) == after_end(active, id),
{
    assert(active.remove(id).remove(id) == active.remove(id));
}

/// The registry of cancellable calls in flight. It holds at most one entry
/// for an id and owns each entry's signal until the entry leaves.
pub struct CancellationRegistry {
    calls: TextMap<tokio::sync::oneshot::Sender<()>>,
}

impl View for CancellationRegistry {
    type V = ActiveCalls;

    closed spec fn view(&self) -> ActiveCalls {
        self.calls@
    }
}

impl CancellationRegistry {
    /// A registry with no call in flight.
    pub fn new() -> (registry: CancellationRegistry)
        ensures
            registry@ == ActiveCalls::empty(),
    {
        CancellationRegistry { calls: TextMap::new() }
    }

    /// Whether a call is in flight under `id`.
    pub fn is_active(&self, id: &str) -> (b: bool)
        ensures
            b == self@.contains_key(id@),
    {
        self.calls.contains_key(id)
    }

    /// Registers a call under `id`, with the signal that cancels it. Where a
    /// call is already in flight under that id, its entry is replaced.
    pub fn begin(&mut self, id: String, signal: tokio::sync::oneshot::Sender<()>)
        ensures
            final(self)@ == after_begin(old(self)@, id@, signal),
    {
        let _ = self.calls.insert(id, signal);
    }

    /// Cancels the call under `id`: takes its entry out and fires its signal.
    /// Returns whether there was such a call; where there was none, nothing
    /// happens.
    pub fn cancel(&mut self, id: &str) -> (was_active: bool)
        ensures
            was_active == old(self)@.contains_key(id@),
            final(self)@ == after_cancel(old(self)@, id@),
    {
        match self.calls.remove(id) {
            Some(signal) => {
                fire(signal);
                true
            },
            None => false,
        }
    }

    /// Takes the entry under `id` out, whether or not there is one.
    pub fn end(&mut self, id: &str)
        ensures
            final(self)@ == after_end(old(self)@, id@),
    {
        let _ = self.calls.remove(id);
    }
}

/// The resources that the peer has subscribed to, by their URIs.
pub struct SubscriptionSet {
    uris: TextMap<()>,
}

impl View for SubscriptionSet {
    type V = Set<Seq<char>>;

    closed spec fn view(&self) -> Set<Seq<char>> {
        self.uris@.dom()
    }
}

impl SubscriptionSet {
    /// The empty set.
    pub fn new() -> (set: SubscriptionSet)
        ensures
            set@ == Set::<Seq<char>>::empty(),
    {
        SubscriptionSet { uris: TextMap::new() }
    }

    /// Whether the peer has subscribed to `uri`.
    pub fn contains(&self, uri: &str) -> (b: bool)
        ensures
            b == self@.contains(uri@),
    {
        self.uris.contains_key(uri)
    }

    /// Adds `uri` to the set.
    pub fn insert(&mut self, uri: String)
        ensures
            final(self)@ == old(self)@.insert(uri@),
    {
        let _ = self.uris.insert(uri, ());
    }

    /// Takes `uri` out of the set.
    pub fn remove(&mut self, uri: &str)
        ensures
            final(self)@ == old(self)@.remove(uri@),
    {
        let _ = self.uris.remove(uri);
    }
}

} // verus!
