//! A bounded first-in first-out queue of navigation intents.
use vstd::prelude::*;

use super::types::{nav_references, OwnedNavIntent, ProviderToken, SurfaceInstanceToken};

verus! {

broadcast use vstd::seq_lib::group_seq_properties;

/// Why an intent was refused.
#[derive(Clone, Copy, Debug, Eq, PartialEq, Structural)]
pub enum IntentQueueError {
    Capacity,
    InvalidOwner,
    ProviderRemovalInProgress,
    StaleInstance,
}

/// Navigation intents waiting for the shell, oldest first, at most
/// `CAPACITY` of them.
pub struct IntentQueue<const CAPACITY: usize> {
    pending: Vec<OwnedNavIntent>,
}

/// An intent survives the purge of `owner` when `owner` neither sent it nor
/// is named by it.
pub open spec fn nav_survives(owner: ProviderToken) -> spec_fn(OwnedNavIntent) -> bool {
    |i: OwnedNavIntent| i.source.surface.owner != owner && !nav_references(i.intent, owner)
}

/// An intent survives the purge of instance `source` when another instance
/// sent it.
pub open spec fn nav_not_from(source: SurfaceInstanceToken) -> spec_fn(OwnedNavIntent) -> bool {
    |i: OwnedNavIntent| i.source != source
}

impl<const CAPACITY: usize> IntentQueue<CAPACITY> {
    /// The waiting intents, oldest first.
    pub closed spec fn queued(self) -> Seq<OwnedNavIntent> {
        self.pending@
    }

    /// An empty queue.
    pub fn new() -> (r: Self)
        ensures
            r.queued() == Seq::<OwnedNavIntent>::empty(),
    {
        IntentQueue { pending: Vec::new() }
    }

    /// Appends an intent, unless the queue is full.
    pub fn push(&mut self, intent: OwnedNavIntent) -> (r: Result<(), IntentQueueError>)
        ensures
            old(self).queued().len() < CAPACITY ==> r is Ok && final(self).queued() == old(self).queued().push(intent),
            old(self).queued().len() >= CAPACITY ==> r == Err::<(), _>(IntentQueueError::Capacity)
                && final(self).queued() == old(self).queued(),
    {
        if self.pending.len() >= CAPACITY {
            return Err(IntentQueueError::Capacity);
        }
        self.pending.push(intent);
        Ok(())
    }

    /// Takes the oldest intent.
    pub fn pop(&mut self) -> (r: Option<OwnedNavIntent>)
        ensures
            old(self).queued().len() == 0 ==> r is None && final(self).queued() == old(self).queued(),
            old(self).queued().len() > 0 ==> r == Some(old(self).queued()[0]) && final(self).queued()
                == old(self).queued().drop_first(),
    {
        if self.pending.len() == 0 {
            return None;
        }
        let first = self.pending.remove(0);
        Some(first)
    }

    /// Drops every intent sent by or naming `owner`, keeping the order of the
    /// rest; returns how many were dropped.
    pub fn purge_provider(&mut self, owner: ProviderToken) -> (removed: usize)
        ensures
            final(self).queued() == old(self).queued().filter(nav_survives(owner)),
            removed == old(self).queued().len() - final(self).queued().len(),
    {
        let before = self.pending.len();
        let mut kept: Vec<OwnedNavIntent> = Vec::new();
        let mut i: usize = 0;
        while i < self.pending.len()
            invariant
                i <= self.pending@.len(),
                kept@ == self.pending@.take(i as int).filter(nav_survives(owner)),
                kept@.len() <= i,
            decreases self.pending@.len() - i,
        {
            let intent = self.pending[i];
            proof {
                assert(self.pending@.take(i + 1) =~= self.pending@.take(i as int).push(intent));
                self.pending@.take(i as int).lemma_filter_push(intent, nav_survives(owner));
            }
            if intent.source.surface.owner != owner && !intent.intent.references_provider(owner) {
                kept.push(intent);
            }
            i = i + 1;
        }
        proof {
            assert(self.pending@.take(self.pending@.len() as int) =~= self.pending@);
        }
        self.pending = kept;
        before - self.pending.len()
    }

    /// Drops every intent sent by instance `source`, keeping the order of the
    /// rest; returns how many were dropped.
    pub fn purge_instance(&mut self, source: SurfaceInstanceToken) -> (removed: usize)
        ensures
            final(self).queued() == old(self).queued().filter(nav_not_from(source)),
            removed == old(self).queued().len() - final(self).queued().len(),
    {
        let before = self.pending.len();
        let mut kept: Vec<OwnedNavIntent> = Vec::new();
        let mut i: usize = 0;
        while i < self.pending.len()
            invariant
                i <= self.pending@.len(),
                kept@ == self.pending@.take(i as int).filter(nav_not_from(source)),
                kept@.len() <= i,
            decreases self.pending@.len() - i,
        {
            let intent = self.pending[i];
            proof {
                assert(self.pending@.take(i + 1) =~= self.pending@.take(i as int).push(intent));
                self.pending@.take(i as int).lemma_filter_push(intent, nav_not_from(source));
            }
            if intent.source != source {
                kept.push(intent);
            }
            i = i + 1;
        }
        proof {
            assert(self.pending@.take(self.pending@.len() as int) =~= self.pending@);
        }
        self.pending = kept;
        before - self.pending.len()
    }

    /// Number of waiting intents.
    pub fn len(&self) -> (r: usize)
        ensures
            r == self.queued().len(),
    {
        self.pending.len()
    }

    /// Whether a waiting intent was sent by or names `owner`.
    pub fn references_provider(&self, owner: ProviderToken) -> (r: bool)
        ensures
            r == exists|k: int| 0 <= k < self.queued().len() && !(#[trigger] nav_survives(owner)(self.queued()[k])),
    {
        let mut i: usize = 0;
        while i < self.pending.len()
            invariant
                i <= self.pending@.len(),
                forall|k: int| 0 <= k < i ==> #[trigger] nav_survives(owner)(self.pending@[k]),
            decreases self.pending@.len() - i,
        {
            let intent = self.pending[i];
            if intent.source.surface.owner == owner || intent.intent.references_provider(owner) {
                assert(!nav_survives(owner)(self.queued()[i as int]));
                return true;
            }
            i = i + 1;
        }
        false
    }
}

} // verus!
