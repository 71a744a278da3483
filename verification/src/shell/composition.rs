//! Overlay composition of the UI shell: the live overlays drawn above the
//! active screen (provider band below the base-system band, by rank within
//! a band) and the queue of modals waiting for the one live modal.
//!
//! Every change is planned first, as the new live list and queue together
//! with the delta a runtime has to apply: overlays that leave, overlays that
//! enter, queued modals that are dropped.
use vstd::prelude::*;

use super::types::{
    owned_by, OverlayAdmission, OverlayBand, OverlayDismissal, OverlayInput, OverlayInstance, OverlayLifetime,
    ProviderToken, RefreshHint, SurfaceInstanceToken,
};

verus! {

broadcast use vstd::seq_lib::group_seq_properties;

/// Why an overlay could not be admitted.
#[derive(Clone, Copy, Debug, Eq, PartialEq, Structural)]
pub enum CompositionReferenceError {
    LiveOverlayCapacity,
    ModalQueueCapacity,
}

/// What a composition plan does: admit an overlay, or remove one.
#[derive(Clone, Copy, Debug, Eq, PartialEq, Structural)]
pub enum CompositionPlanResult {
    Admission(OverlayAdmission),
    Removal(OverlayDismissal),
}

/// A live or queued overlay with the refresh hint of its surface.
#[derive(Clone, Copy, Debug, Eq, PartialEq, Structural)]
pub struct OverlayEntry {
    pub instance: OverlayInstance,
    pub hint: RefreshHint,
}

/// The overlays a change makes leave or enter the live list, and the queued
/// modals it drops.
#[derive(Clone, Debug)]
pub struct CompositionDelta {
    pub leave: Vec<OverlayInstance>,
    pub enter: Vec<OverlayInstance>,
    pub dropped: Vec<OverlayInstance>,
}

impl CompositionDelta {
    /// Live overlays that leave, in live order.
    pub fn leave_live(&self) -> (r: &[OverlayInstance])
        ensures
            r@ == self.leave@,
    {
        self.leave.as_slice()
    }

    /// Overlays that enter the live list.
    pub fn enter_live(&self) -> (r: &[OverlayInstance])
        ensures
            r@ == self.enter@,
    {
        self.enter.as_slice()
    }

    /// Queued modals that are dropped, in queue order.
    pub fn remove_queued(&self) -> (r: &[OverlayInstance])
        ensures
            r@ == self.dropped@,
    {
        self.dropped.as_slice()
    }
}

/// The overlays of a sequence of entries.
pub open spec fn instances(s: Seq<OverlayEntry>) -> Seq<OverlayInstance> {
    Seq::new(s.len(), |i: int| s[i].instance)
}

/// Order key within the live list: band, then rank.
pub open spec fn band_code(b: OverlayBand) -> int {
    match b {
        OverlayBand::Provider => 0,
        OverlayBand::BaseSystem => 1,
    }
}

/// `a` sorts strictly after `b` in the live list.
pub open spec fn live_after(a: OverlayEntry, b: OverlayEntry) -> bool {
    band_code(a.instance.band) > band_code(b.instance.band) || (a.instance.band == b.instance.band
        && a.instance.rank > b.instance.rank)
}

/// Where `e` goes in the live list: before the first entry that sorts after
/// it, so equal keys keep their arrival order.
pub open spec fn live_position(live: Seq<OverlayEntry>, e: OverlayEntry, from: int) -> int
    decreases live.len() - from,
{
    if from < 0 || from >= live.len() {
        live.len() as int
    } else if live_after(live[from], e) {
        from
    } else {
        live_position(live, e, from + 1)
    }
}

/// Where a queued modal goes: base-system modals ahead of every provider
/// modal, each band first come first served.
pub open spec fn queue_position(queued: Seq<OverlayEntry>, e: OverlayEntry, from: int) -> int
    decreases queued.len() - from,
{
    if e.instance.band == OverlayBand::Provider || from < 0 || from >= queued.len() {
        queued.len() as int
    } else if queued[from].instance.band == OverlayBand::Provider {
        from
    } else {
        queue_position(queued, e, from + 1)
    }
}

/// Index of the live modal, if any.
pub open spec fn modal_index(live: Seq<OverlayEntry>, from: int) -> Option<int>
    decreases live.len() - from,
{
    if from < 0 || from >= live.len() {
        None
    } else if live[from].instance.input == OverlayInput::Modal {
        Some(from)
    } else {
        modal_index(live, from + 1)
    }
}

/// Index of the newest queued provider modal, searching down from `upto`.
pub open spec fn last_provider_index(queued: Seq<OverlayEntry>, upto: int) -> Option<int>
    decreases upto,
{
    if upto <= 0 || upto > queued.len() {
        None
    } else if queued[upto - 1].instance.band == OverlayBand::Provider {
        Some(upto - 1)
    } else {
        last_provider_index(queued, upto - 1)
    }
}

/// Index of the entry whose instance is `token`.
pub open spec fn token_index(s: Seq<OverlayEntry>, token: SurfaceInstanceToken, from: int) -> Option<int>
    decreases s.len() - from,
{
    if from < 0 || from >= s.len() {
        None
    } else if s[from].instance.token == token {
        Some(from)
    } else {
        token_index(s, token, from + 1)
    }
}

/// A planned change: its result, the new live list and queue, and the delta.
pub struct PlannedComposition {
    pub result: CompositionPlanResult,
    pub live: Vec<OverlayEntry>,
    pub queued: Vec<OverlayEntry>,
    pub delta: CompositionDelta,
}

/// The mathematical content of a plan.
pub struct CompositionOutcome {
    pub result: CompositionPlanResult,
    pub live: Seq<OverlayEntry>,
    pub queued: Seq<OverlayEntry>,
    pub leave: Seq<OverlayInstance>,
    pub enter: Seq<OverlayInstance>,
    pub dropped: Seq<OverlayInstance>,
}

impl PlannedComposition {
    /// The plan's content.
    pub open spec fn outcome(&self) -> CompositionOutcome {
        CompositionOutcome {
            result: self.result,
            live: self.live@,
            queued: self.queued@,
            leave: self.delta.leave@,
            enter: self.delta.enter@,
            dropped: self.delta.dropped@,
        }
    }
}

/// Admitting `e`: a passive or interactive overlay joins the live list when
/// it has room. A modal becomes the live modal when there is none (and the
/// list has room), or when a base-system modal meets a live provider modal,
/// which leaves. Otherwise the modal queues; a full queue makes room for a
/// base-system modal by dropping the newest provider modal.
pub open spec fn admission_spec(
    live: Seq<OverlayEntry>,
    queued: Seq<OverlayEntry>,
    e: OverlayEntry,
    live_capacity: int,
    queue_capacity: int,
) -> Result<CompositionOutcome, CompositionReferenceError> {
    let goes_live = CompositionOutcome {
        result: CompositionPlanResult::Admission(OverlayAdmission::Active(e.instance)),
        live: live.insert(live_position(live, e, 0), e),
        queued,
        leave: Seq::empty(),
        enter: seq![e.instance],
        dropped: Seq::empty(),
    };
    if e.instance.input != OverlayInput::Modal || modal_index(live, 0) is None {
        if live.len() < live_capacity {
            Ok(goes_live)
        } else {
            Err(CompositionReferenceError::LiveOverlayCapacity)
        }
    } else {
        let m = modal_index(live, 0)->0;
        if e.instance.band == OverlayBand::BaseSystem && live[m].instance.band == OverlayBand::Provider {
            let rest = live.remove(m);
            Ok(
                CompositionOutcome {
                    result: CompositionPlanResult::Admission(OverlayAdmission::Active(e.instance)),
                    live: rest.insert(live_position(rest, e, 0), e),
                    queued,
                    leave: seq![live[m].instance],
                    enter: seq![e.instance],
                    dropped: Seq::empty(),
                },
            )
        } else if queued.len() < queue_capacity {
            Ok(
                CompositionOutcome {
                    result: CompositionPlanResult::Admission(OverlayAdmission::Queued(e.instance)),
                    live,
                    queued: queued.insert(queue_position(queued, e, 0), e),
                    leave: Seq::empty(),
                    enter: Seq::empty(),
                    dropped: Seq::empty(),
                },
            )
        } else if e.instance.band == OverlayBand::BaseSystem && last_provider_index(
            queued,
            queued.len() as int,
        ) is Some {
            let k = last_provider_index(queued, queued.len() as int)->0;
            let rest = queued.remove(k);
            Ok(
                CompositionOutcome {
                    result: CompositionPlanResult::Admission(OverlayAdmission::Queued(e.instance)),
                    live,
                    queued: rest.insert(queue_position(rest, e, 0), e),
                    leave: Seq::empty(),
                    enter: Seq::empty(),
                    dropped: seq![queued[k].instance],
                },
            )
        } else {
            Err(CompositionReferenceError::ModalQueueCapacity)
        }
    }
}

/// Removing the overlay `token`: a live one leaves, and when it was the live
/// modal the first queued modal is promoted; a queued one is dropped.
pub open spec fn removal_spec(live: Seq<OverlayEntry>, queued: Seq<OverlayEntry>, token: SurfaceInstanceToken) -> Option<
    CompositionOutcome,
> {
    match token_index(live, token, 0) {
        Some(i) => {
            let gone = live[i];
            let rest = live.remove(i);
            if gone.instance.input == OverlayInput::Modal && queued.len() > 0 {
                let p = queued[0];
                Some(
                    CompositionOutcome {
                        result: CompositionPlanResult::Removal(
                            OverlayDismissal { removed: gone.instance, removed_was_live: true, promoted: Some(p.instance) },
                        ),
                        live: rest.insert(live_position(rest, p, 0), p),
                        queued: queued.drop_first(),
                        leave: seq![gone.instance],
                        enter: seq![p.instance],
                        dropped: Seq::empty(),
                    },
                )
            } else {
                Some(
                    CompositionOutcome {
                        result: CompositionPlanResult::Removal(
                            OverlayDismissal { removed: gone.instance, removed_was_live: true, promoted: None },
                        ),
                        live: rest,
                        queued,
                        leave: seq![gone.instance],
                        enter: Seq::empty(),
                        dropped: Seq::empty(),
                    },
                )
            }
        },
        None => match token_index(queued, token, 0) {
            Some(j) => Some(
                CompositionOutcome {
                    result: CompositionPlanResult::Removal(
                        OverlayDismissal { removed: queued[j].instance, removed_was_live: false, promoted: None },
                    ),
                    live,
                    queued: queued.remove(j),
                    leave: Seq::empty(),
                    enter: Seq::empty(),
                    dropped: seq![queued[j].instance],
                },
            ),
            None => None,
        },
    }
}

/// Whether a cleanup drops `e`: it belongs to or was requested by `owner`,
/// or it is transient and transients go.
pub open spec fn dropped_by(owner: Option<ProviderToken>, drop_transient: bool) -> spec_fn(OverlayEntry) -> bool {
    |e: OverlayEntry|
        (owner matches Some(o) && (owned_by(e.instance.token.surface, o) || e.instance.request_owner == o)) || (
        drop_transient && e.instance.lifetime == OverlayLifetime::Transient)
}

/// The complement of `dropped_by`.
pub open spec fn kept_by(owner: Option<ProviderToken>, drop_transient: bool) -> spec_fn(OverlayEntry) -> bool {
    |e: OverlayEntry| !dropped_by(owner, drop_transient)(e)
}

/// Whether a sequence holds a modal.
pub open spec fn has_modal(s: Seq<OverlayEntry>) -> bool {
    exists|i: int| 0 <= i < s.len() && (#[trigger] s[i]).instance.input == OverlayInput::Modal
}

/// The content of a cleanup: the new live list and queue and the delta.
pub struct CleanupOutcome {
    pub live: Seq<OverlayEntry>,
    pub queued: Seq<OverlayEntry>,
    pub leave: Seq<OverlayInstance>,
    pub enter: Seq<OverlayInstance>,
    pub dropped: Seq<OverlayInstance>,
}

/// A cleanup: the dropped live overlays leave and the dropped queued modals
/// go; when the live modal left, the first remaining queued modal is
/// promoted.
pub open spec fn cleanup_spec(
    live: Seq<OverlayEntry>,
    queued: Seq<OverlayEntry>,
    owner: Option<ProviderToken>,
    drop_transient: bool,
) -> CleanupOutcome {
    let gone = live.filter(dropped_by(owner, drop_transient));
    let rest = live.filter(kept_by(owner, drop_transient));
    let waiting = queued.filter(kept_by(owner, drop_transient));
    let dropped = queued.filter(dropped_by(owner, drop_transient));
    if has_modal(gone) && waiting.len() > 0 {
        let p = waiting[0];
        CleanupOutcome {
            live: rest.insert(live_position(rest, p, 0), p),
            queued: waiting.drop_first(),
            leave: instances(gone),
            enter: seq![p.instance],
            dropped: instances(dropped),
        }
    } else {
        CleanupOutcome {
            live: rest,
            queued: waiting,
            leave: instances(gone),
            enter: Seq::empty(),
            dropped: instances(dropped),
        }
    }
}

/// The coarsest of two refresh hints.
pub open spec fn hint_max(a: RefreshHint, b: RefreshHint) -> RefreshHint {
    if a == RefreshHint::Boundary || b == RefreshHint::Boundary {
        RefreshHint::Boundary
    } else if a == RefreshHint::Content || b == RefreshHint::Content {
        RefreshHint::Content
    } else {
        RefreshHint::Micro
    }
}

/// The coarsest hint among `base` and the live overlays.
pub open spec fn merged_hint(base: RefreshHint, live: Seq<OverlayEntry>) -> RefreshHint
    decreases live.len(),
{
    if live.len() == 0 {
        base
    } else {
        hint_max(merged_hint(base, live.drop_last()), live.last().hint)
    }
}

fn live_position_exec(live: &Vec<OverlayEntry>, e: OverlayEntry) -> (r: usize)
    ensures
        r == live_position(live@, e, 0),
        r <= live@.len(),
{
    let mut i: usize = 0;
    while i < live.len()
        invariant
            i <= live@.len(),
            live_position(live@, e, 0) == live_position(live@, e, i as int),
        decreases live@.len() - i,
    {
        let x = live[i];
        let after = match (x.instance.band, e.instance.band) {
            (OverlayBand::BaseSystem, OverlayBand::Provider) => true,
            (OverlayBand::Provider, OverlayBand::BaseSystem) => false,
            _ => x.instance.rank > e.instance.rank,
        };
        if after {
            return i;
        }
        i = i + 1;
    }
    i
}

fn queue_position_exec(queued: &Vec<OverlayEntry>, e: OverlayEntry) -> (r: usize)
    ensures
        r == queue_position(queued@, e, 0),
        r <= queued@.len(),
{
    if e.instance.band == OverlayBand::Provider {
        return queued.len();
    }
    let mut i: usize = 0;
    while i < queued.len()
        invariant
            i <= queued@.len(),
            e.instance.band != OverlayBand::Provider,
            queue_position(queued@, e, 0) == queue_position(queued@, e, i as int),
        decreases queued@.len() - i,
    {
        if queued[i].instance.band == OverlayBand::Provider {
            return i;
        }
        i = i + 1;
    }
    i
}

fn modal_index_exec(live: &Vec<OverlayEntry>) -> (r: Option<usize>)
    ensures
        r matches Some(i) ==> modal_index(live@, 0) == Some(i as int) && i < live@.len(),
        r is None ==> modal_index(live@, 0) is None,
{
    let mut i: usize = 0;
    while i < live.len()
        invariant
            i <= live@.len(),
            modal_index(live@, 0) == modal_index(live@, i as int),
        decreases live@.len() - i,
    {
        if live[i].instance.input == OverlayInput::Modal {
            return Some(i);
        }
        i = i + 1;
    }
    None
}

fn last_provider_exec(queued: &Vec<OverlayEntry>) -> (r: Option<usize>)
    ensures
        r matches Some(k) ==> last_provider_index(queued@, queued@.len() as int) == Some(k as int) && k
            < queued@.len(),
        r is None ==> last_provider_index(queued@, queued@.len() as int) is None,
{
    let mut upto: usize = queued.len();
    while upto > 0
        invariant
            upto <= queued@.len(),
            last_provider_index(queued@, queued@.len() as int) == last_provider_index(queued@, upto as int),
        decreases upto,
    {
        if queued[upto - 1].instance.band == OverlayBand::Provider {
            return Some(upto - 1);
        }
        upto = upto - 1;
    }
    None
}

/// Index of the entry whose instance is `token`.
pub fn token_position(s: &Vec<OverlayEntry>, token: SurfaceInstanceToken) -> (r: Option<usize>)
    ensures
        r matches Some(i) ==> token_index(s@, token, 0) == Some(i as int) && i < s@.len() && s@[i as int].instance.token
            == token,
        r is None ==> token_index(s@, token, 0) is None,
{
    let mut i: usize = 0;
    while i < s.len()
        invariant
            i <= s@.len(),
            token_index(s@, token, 0) == token_index(s@, token, i as int),
        decreases s@.len() - i,
    {
        if s[i].instance.token == token {
            return Some(i);
        }
        i = i + 1;
    }
    None
}

fn empty_delta() -> (r: CompositionDelta)
    ensures
        r.leave@ == Seq::<OverlayInstance>::empty(),
        r.enter@ == Seq::<OverlayInstance>::empty(),
        r.dropped@ == Seq::<OverlayInstance>::empty(),
{
    CompositionDelta { leave: Vec::new(), enter: Vec::new(), dropped: Vec::new() }
}

fn one(x: OverlayInstance) -> (r: Vec<OverlayInstance>)
    ensures
        r@ == seq![x],
{
    let mut v = Vec::new();
    v.push(x);
    v
}

/// Plans admitting the overlay `e`.
pub fn plan_admission(
    live: &Vec<OverlayEntry>,
    queued: &Vec<OverlayEntry>,
    e: OverlayEntry,
    live_capacity: usize,
    queue_capacity: usize,
) -> (r: Result<PlannedComposition, CompositionReferenceError>)
    ensures
        match (r, admission_spec(live@, queued@, e, live_capacity as int, queue_capacity as int)) {
            (Ok(p), Ok(o)) => p.outcome() == o,
            (Err(a), Err(b)) => a == b,
            _ => false,
        },
{
    let modal = if e.instance.input == OverlayInput::Modal {
        modal_index_exec(live)
    } else {
        None
    };
    match modal {
        None => {
            if live.len() >= live_capacity {
                return Err(CompositionReferenceError::LiveOverlayCapacity);
            }
            let pos = live_position_exec(live, e);
            let mut next = live.clone();
            next.insert(pos, e);
            let mut delta = empty_delta();
            delta.enter = one(e.instance);
            Ok(
                PlannedComposition {
                    result: CompositionPlanResult::Admission(OverlayAdmission::Active(e.instance)),
                    live: next,
                    queued: queued.clone(),
                    delta,
                },
            )
        },
        Some(m) => {
            let current = live[m];
            if e.instance.band == OverlayBand::BaseSystem && current.instance.band == OverlayBand::Provider {
                let mut rest = live.clone();
                let _ = rest.remove(m);
                let pos = live_position_exec(&rest, e);
                rest.insert(pos, e);
                let mut delta = empty_delta();
                delta.leave = one(current.instance);
                delta.enter = one(e.instance);
                return Ok(
                    PlannedComposition {
                        result: CompositionPlanResult::Admission(OverlayAdmission::Active(e.instance)),
                        live: rest,
                        queued: queued.clone(),
                        delta,
                    },
                );
            }
            if queued.len() < queue_capacity {
                let pos = queue_position_exec(queued, e);
                let mut next = queued.clone();
                next.insert(pos, e);
                return Ok(
                    PlannedComposition {
                        result: CompositionPlanResult::Admission(OverlayAdmission::Queued(e.instance)),
                        live: live.clone(),
                        queued: next,
                        delta: empty_delta(),
                    },
                );
            }
            if e.instance.band == OverlayBand::BaseSystem {
                if let Some(k) = last_provider_exec(queued) {
                    let evicted = queued[k];
                    let mut rest = queued.clone();
                    let _ = rest.remove(k);
                    let pos = queue_position_exec(&rest, e);
                    rest.insert(pos, e);
                    let mut delta = empty_delta();
                    delta.dropped = one(evicted.instance);
                    return Ok(
                        PlannedComposition {
                            result: CompositionPlanResult::Admission(OverlayAdmission::Queued(e.instance)),
                            live: live.clone(),
                            queued: rest,
                            delta,
                        },
                    );
                }
            }
            Err(CompositionReferenceError::ModalQueueCapacity)
        },
    }
}

/// Plans removing the overlay `token`, live or queued.
pub fn plan_removal(live: &Vec<OverlayEntry>, queued: &Vec<OverlayEntry>, token: SurfaceInstanceToken) -> (r: Option<
    PlannedComposition,
>)
    ensures
        match (r, removal_spec(live@, queued@, token)) {
            (Some(p), Some(o)) => p.outcome() == o,
            (None, None) => true,
            _ => false,
        },
{
    match token_position(live, token) {
        Some(i) => {
            let gone = live[i];
            let mut rest = live.clone();
            let _ = rest.remove(i);
            let mut delta = empty_delta();
            delta.leave = one(gone.instance);
            if gone.instance.input == OverlayInput::Modal && queued.len() > 0 {
                let p = queued[0];
                let pos = live_position_exec(&rest, p);
                rest.insert(pos, p);
                let mut waiting = queued.clone();
                let _ = waiting.remove(0);
                delta.enter = one(p.instance);
                Some(
                    PlannedComposition {
                        result: CompositionPlanResult::Removal(
                            OverlayDismissal { removed: gone.instance, removed_was_live: true, promoted: Some(p.instance) },
                        ),
                        live: rest,
                        queued: waiting,
                        delta,
                    },
                )
            } else {
                Some(
                    PlannedComposition {
                        result: CompositionPlanResult::Removal(
                            OverlayDismissal { removed: gone.instance, removed_was_live: true, promoted: None },
                        ),
                        live: rest,
                        queued: queued.clone(),
                        delta,
                    },
                )
            }
        },
        None => match token_position(queued, token) {
            Some(j) => {
                let gone = queued[j];
                let mut waiting = queued.clone();
                let _ = waiting.remove(j);
                let mut delta = empty_delta();
                delta.dropped = one(gone.instance);
                Some(
                    PlannedComposition {
                        result: CompositionPlanResult::Removal(
                            OverlayDismissal { removed: gone.instance, removed_was_live: false, promoted: None },
                        ),
                        live: live.clone(),
                        queued: waiting,
                        delta,
                    },
                )
            },
            None => None,
        },
    }
}

fn drops(e: OverlayEntry, owner: Option<ProviderToken>, drop_transient: bool) -> (r: bool)
    ensures
        r == dropped_by(owner, drop_transient)(e),
{
    let by_owner = match owner {
        Some(o) => (e.instance.token.surface.owner.id.0 == o.id.0 && e.instance.token.surface.owner.generation.0
            == o.generation.0) || e.instance.request_owner == o,
        None => false,
    };
    by_owner || (drop_transient && e.instance.lifetime == OverlayLifetime::Transient)
}

fn split_entries(s: &Vec<OverlayEntry>, owner: Option<ProviderToken>, drop_transient: bool) -> (r: (
    Vec<OverlayEntry>,
    Vec<OverlayEntry>,
))
    ensures
        r.0@ == s@.filter(kept_by(owner, drop_transient)),
        r.1@ == s@.filter(dropped_by(owner, drop_transient)),
{
    let mut kept: Vec<OverlayEntry> = Vec::new();
    let mut gone: Vec<OverlayEntry> = Vec::new();
    let mut i: usize = 0;
    while i < s.len()
        invariant
            i <= s@.len(),
            kept@ == s@.take(i as int).filter(kept_by(owner, drop_transient)),
            gone@ == s@.take(i as int).filter(dropped_by(owner, drop_transient)),
        decreases s@.len() - i,
    {
        let e = s[i];
        proof {
            assert(s@.take(i + 1) =~= s@.take(i as int).push(e));
            s@.take(i as int).lemma_filter_push(e, kept_by(owner, drop_transient));
            s@.take(i as int).lemma_filter_push(e, dropped_by(owner, drop_transient));
        }
        if drops(e, owner, drop_transient) {
            gone.push(e);
        } else {
            kept.push(e);
        }
        i = i + 1;
    }
    proof {
        assert(s@.take(s@.len() as int) =~= s@);
    }
    (kept, gone)
}

fn instances_of(s: &Vec<OverlayEntry>) -> (r: Vec<OverlayInstance>)
    ensures
        r@ == instances(s@),
{
    let mut out: Vec<OverlayInstance> = Vec::new();
    let mut i: usize = 0;
    while i < s.len()
        invariant
            i <= s@.len(),
            out@ == instances(s@.take(i as int)),
        decreases s@.len() - i,
    {
        out.push(s[i].instance);
        assert(instances(s@.take(i + 1)) =~= instances(s@.take(i as int)).push(s@[i as int].instance));
        i = i + 1;
    }
    assert(s@.take(s@.len() as int) =~= s@);
    out
}

fn any_modal(s: &Vec<OverlayEntry>) -> (r: bool)
    ensures
        r == has_modal(s@),
{
    let mut i: usize = 0;
    while i < s.len()
        invariant
            i <= s@.len(),
            forall|k: int| 0 <= k < i ==> (#[trigger] s@[k]).instance.input != OverlayInput::Modal,
        decreases s@.len() - i,
    {
        if s[i].instance.input == OverlayInput::Modal {
            return true;
        }
        i = i + 1;
    }
    false
}

/// A planned cleanup: the new live list and queue, and the delta.
pub struct PlannedCleanup {
    pub live: Vec<OverlayEntry>,
    pub queued: Vec<OverlayEntry>,
    pub delta: CompositionDelta,
}

impl PlannedCleanup {
    /// The cleanup's content.
    pub open spec fn outcome(&self) -> CleanupOutcome {
        CleanupOutcome {
            live: self.live@,
            queued: self.queued@,
            leave: self.delta.leave@,
            enter: self.delta.enter@,
            dropped: self.delta.dropped@,
        }
    }
}

/// Plans a cleanup dropping the overlays of `owner` (if any) and, when
/// `drop_transient`, every transient one.
pub fn plan_cleanup(
    live: &Vec<OverlayEntry>,
    queued: &Vec<OverlayEntry>,
    owner: Option<ProviderToken>,
    drop_transient: bool,
) -> (r: PlannedCleanup)
    ensures
        r.outcome() == cleanup_spec(live@, queued@, owner, drop_transient),
{
    let (mut rest, gone) = split_entries(live, owner, drop_transient);
    let (mut waiting, dropped) = split_entries(queued, owner, drop_transient);
    let leave = instances_of(&gone);
    let dropped_instances = instances_of(&dropped);
    if any_modal(&gone) && waiting.len() > 0 {
        let p = waiting[0];
        let pos = live_position_exec(&rest, p);
        rest.insert(pos, p);
        let _ = waiting.remove(0);
        PlannedCleanup {
            live: rest,
            queued: waiting,
            delta: CompositionDelta { leave, enter: one(p.instance), dropped: dropped_instances },
        }
    } else {
        PlannedCleanup {
            live: rest,
            queued: waiting,
            delta: CompositionDelta { leave, enter: Vec::new(), dropped: dropped_instances },
        }
    }
}

/// The coarsest refresh hint among `base` and the live overlays.
pub fn merge_hints(base: RefreshHint, live: &Vec<OverlayEntry>) -> (r: RefreshHint)
    ensures
        r == merged_hint(base, live@),
{
    let mut acc = base;
    let mut i: usize = 0;
    while i < live.len()
        invariant
            i <= live@.len(),
            acc == merged_hint(base, live@.take(i as int)),
        decreases live@.len() - i,
    {
        let h = live[i].hint;
        assert(live@.take(i + 1).drop_last() =~= live@.take(i as int));
        acc = if acc == RefreshHint::Boundary || h == RefreshHint::Boundary {
            RefreshHint::Boundary
        } else if acc == RefreshHint::Content || h == RefreshHint::Content {
            RefreshHint::Content
        } else {
            RefreshHint::Micro
        };
        i = i + 1;
    }
    assert(live@.take(live@.len() as int) =~= live@);
    acc
}

} // verus!
