//! A bounded first-in first-out queue of the intents UI callbacks raised.
use vstd::prelude::*;

use super::types::{intent_source, shell_intent_references, OwnedShellIntent, ProviderToken, SurfaceInstanceToken};

verus! {

broadcast use vstd::seq_lib::group_seq_properties;

/// Intents raised by callbacks and not yet taken, oldest first, at most
/// `CAPACITY` of them.
pub struct CallbackActionQueue<const CAPACITY: usize> {
    pending: Vec<OwnedShellIntent>,
}

/// An action survives the purge of instance `source` when another instance
/// raised it.
pub open spec fn action_not_from(source: SurfaceInstanceToken) -> spec_fn(OwnedShellIntent) -> bool {
    |a: OwnedShellIntent| intent_source(a) != source
}

/// An action survives the purge of `owner` when it neither comes from nor
/// names `owner`.
pub open spec fn action_survives(owner: ProviderToken) -> spec_fn(OwnedShellIntent) -> bool {
    |a: OwnedShellIntent| !shell_intent_references(a, owner)
}

/// The actions that come from or name `owner`.
pub open spec fn action_refers(owner: ProviderToken) -> spec_fn(OwnedShellIntent) -> bool {
    |a: OwnedShellIntent| shell_intent_references(a, owner)
}

impl<const CAPACITY: usize> CallbackActionQueue<CAPACITY> {
    /// The waiting actions, oldest first.
    pub closed spec fn queued(self) -> Seq<OwnedShellIntent> {
        self.pending@
    }

    /// An empty queue.
    pub fn new() -> (r: Self)
        ensures
            r.queued() == Seq::<OwnedShellIntent>::empty(),
    {
        CallbackActionQueue { pending: Vec::new() }
    }

    /// Appends an action, or hands it back when the queue is full.
    pub fn push(&mut self, action: OwnedShellIntent) -> (r: Result<(), OwnedShellIntent>)
        ensures
            old(self).queued().len() < CAPACITY ==> r is Ok && final(self).queued() == old(self).queued().push(action),
            old(self).queued().len() >= CAPACITY ==> r == Err::<(), _>(action) && final(self).queued()
                == old(self).queued(),
    {
        if self.pending.len() >= CAPACITY {
            return Err(action);
        }
        self.pending.push(action);
        Ok(())
    }

    /// Takes the oldest action.
    pub fn pop(&mut self) -> (r: Option<OwnedShellIntent>)
        ensures
            old(self).queued().len() == 0 ==> r is None && final(self).queued() == old(self).queued(),
            old(self).queued().len() > 0 ==> r == Some(old(self).queued()[0]) && final(self).queued()
                == old(self).queued().drop_first(),
    {
        if self.pending.len() == 0 {
            return None;
        }
        let first = self.pending.remove(0);
        Some(first)
    }

    /// Drops every action raised by instance `source`, keeping the order of
    /// the rest; returns how many were dropped.
    pub fn purge_instance(&mut self, source: SurfaceInstanceToken) -> (removed: usize)
        ensures
            final(self).queued() == old(self).queued().filter(action_not_from(source)),
            removed == old(self).queued().len() - final(self).queued().len(),
    {
        let before = self.pending.len();
        let mut kept: Vec<OwnedShellIntent> = Vec::new();
        let mut i: usize = 0;
        while i < self.pending.len()
            invariant
                i <= self.pending@.len(),
                kept@ == self.pending@.take(i as int).filter(action_not_from(source)),
                kept@.len() <= i,
            decreases self.pending@.len() - i,
        {
            let action = self.pending[i];
            proof {
                assert(self.pending@.take(i + 1) =~= self.pending@.take(i as int).push(action));
                self.pending@.take(i as int).lemma_filter_push(action, action_not_from(source));
            }
            if action.source() != source {
                kept.push(action);
            }
            i = i + 1;
        }
        proof {
            assert(self.pending@.take(self.pending@.len() as int) =~= self.pending@);
        }
        self.pending = kept;
        before - self.pending.len()
    }

    /// Drops every action that comes from or names `owner`, keeping the order
    /// of the rest; returns how many were dropped.
    pub fn purge_provider(&mut self, owner: ProviderToken) -> (removed: usize)
        ensures
            final(self).queued() == old(self).queued().filter(action_survives(owner)),
            removed == old(self).queued().len() - final(self).queued().len(),
    {
        let before = self.pending.len();
        let mut kept: Vec<OwnedShellIntent> = Vec::new();
        let mut i: usize = 0;
        while i < self.pending.len()
            invariant
                i <= self.pending@.len(),
                kept@ == self.pending@.take(i as int).filter(action_survives(owner)),
                kept@.len() <= i,
            decreases self.pending@.len() - i,
        {
            let action = self.pending[i];
            proof {
                assert(self.pending@.take(i + 1) =~= self.pending@.take(i as int).push(action));
                self.pending@.take(i as int).lemma_filter_push(action, action_survives(owner));
            }
            if !action.references_provider(owner) {
                kept.push(action);
            }
            i = i + 1;
        }
        proof {
            assert(self.pending@.take(self.pending@.len() as int) =~= self.pending@);
        }
        self.pending = kept;
        before - self.pending.len()
    }

    /// Whether a waiting action comes from or names `owner`.
    pub fn references_provider(&self, owner: ProviderToken) -> (r: bool)
        ensures
            r == (self.queued().filter(action_refers(owner)).len() != 0),
    {
        self.provider_reference_count(owner) != 0
    }

    /// Number of waiting actions that come from or name `owner`.
    pub fn provider_reference_count(&self, owner: ProviderToken) -> (r: usize)
        ensures
            r == self.queued().filter(action_refers(owner)).len(),
    {
        let mut count: usize = 0;
        let mut i: usize = 0;
        while i < self.pending.len()
            invariant
                i <= self.pending@.len(),
                count == self.pending@.take(i as int).filter(action_refers(owner)).len(),
                count <= i,
            decreases self.pending@.len() - i,
        {
            let action = self.pending[i];
            proof {
                assert(self.pending@.take(i + 1) =~= self.pending@.take(i as int).push(action));
                self.pending@.take(i as int).lemma_filter_push(action, action_refers(owner));
            }
            if action.references_provider(owner) {
                count = count + 1;
            }
            i = i + 1;
        }
        proof {
            assert(self.pending@.take(self.pending@.len() as int) =~= self.pending@);
        }
        count
    }
}

/// Purging `owner` leaves no action that comes from or names it, and drops
/// exactly those that do.
pub proof fn lemma_purge_provider_complete(q: Seq<OwnedShellIntent>, owner: ProviderToken)
    ensures
        q.filter(action_survives(owner)).filter(action_refers(owner)).len() == 0,
        q.filter(action_survives(owner)).len() + q.filter(action_refers(owner)).len() == q.len(),
    decreases q.len(),
{
    reveal(Seq::filter);
    if q.len() > 0 {
        lemma_purge_provider_complete(q.drop_last(), owner);
        let s = q.drop_last().filter(action_survives(owner));
        if !shell_intent_references(q.last(), owner) {
            s.lemma_filter_push(q.last(), action_refers(owner));
        }
    }
}

} // verus!
