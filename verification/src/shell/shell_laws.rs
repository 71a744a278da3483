//! Properties of the shell model that span its operations: plans go stale
//! when anything changes, surface ids stay unique across providers, and a
//! screen instance that navigation replaced is never live again.
use vstd::prelude::*;

use super::composition::{
    admission_spec, cleanup_spec, dropped_by, has_modal, kept_by, live_position, modal_index, queue_position,
    removal_spec, token_index, OverlayEntry,
};
use super::intent_queue::IntentQueueError;
use super::model::{
    bumped, commit_composition_spec, commit_navigation_spec, detach_spec, instances_fresh, is_live_instance,
    prepare_intent_spec, queue_intent_spec, recovery_spec, CompositionError, CompositionPlanView,
    NavigationPlanView, ProviderRemovalError, ProviderRemovalPlanView, ShellNavigationError, ShellState,
};
use super::registry::{
    batch_duplicate, bound_definitions, find_surface_id, registered_duplicate, registration_spec,
};
use super::types::{
    OverlayBand, OverlayInput, OwnedNavIntent, ProviderId, ProviderToken, SurfaceDefinition, SurfaceInstanceToken,
    SurfaceSpec,
};

verus! {

broadcast use vstd::seq_lib::group_seq_properties;

/// Once the shell has changed, a plan prepared before the change is refused
/// as stale and leaves the shell as it is: every successful change moves the
/// revision on, and every commit checks it.
pub proof fn lemma_changes_make_plans_stale(
    s: ShellState,
    after: ShellState,
    navigation: NavigationPlanView,
    composition: CompositionPlanView,
    removal: ProviderRemovalPlanView,
    stack: int,
    live: int,
    modals: int,
)
    requires
        navigation.revision == s.revision,
        composition.revision == s.revision,
        removal.revision == s.revision,
        after.revision == bumped(s.revision),
    ensures
        commit_navigation_spec(after, navigation, stack, live, modals) == (
            Err::<super::navigator::NavigationOutcome, _>(ShellNavigationError::StalePlan),
            after,
        ),
        commit_composition_spec(after, composition, live, modals) == (
            Err::<super::composition::CompositionPlanResult, _>(CompositionError::StalePlan),
            after,
        ),
        detach_spec(after, removal, live, modals) == (
            Err::<super::model::PendingProviderRemoval, _>(ProviderRemovalError::StalePlan),
            after,
        ),
{
}

/// No two registered surfaces share an id.
pub open spec fn surface_ids_unique(defs: Seq<SurfaceDefinition>) -> bool {
    forall|i: int, j: int| 0 <= i < j < defs.len() ==> defs[i].surface.id != defs[j].surface.id
}

proof fn lemma_no_batch_duplicate(specs: Seq<SurfaceSpec>, from: int)
    requires
        0 <= from,
        batch_duplicate(specs, from) is None,
    ensures
        forall|a: int, b: int| 0 <= a < b < specs.len() && from <= b ==> specs[a].id != specs[b].id,
    decreases specs.len() - from,
{
    if from < specs.len() {
        assert(!exists|k: int| 0 <= k < from && specs[k].id == specs[from].id);
        lemma_no_batch_duplicate(specs, from + 1);
        assert forall|a: int, b: int| 0 <= a < b < specs.len() && from <= b implies specs[a].id != specs[b].id by {
            if b == from {
                assert(!(0 <= a < from && specs[a].id == specs[from].id));
            }
        }
    }
}

proof fn lemma_no_registered_duplicate(defs: Seq<SurfaceDefinition>, specs: Seq<SurfaceSpec>, from: int)
    requires
        0 <= from,
        registered_duplicate(defs, specs, from) is None,
    ensures
        forall|k: int, d: int| from <= k < specs.len() && 0 <= d < defs.len() ==> defs[d].surface.id != specs[k].id,
    decreases specs.len() - from,
{
    if from < specs.len() {
        lemma_find_surface_id_none(defs, specs[from].id, 0);
        lemma_no_registered_duplicate(defs, specs, from + 1);
    }
}

proof fn lemma_find_surface_id_none(defs: Seq<SurfaceDefinition>, id: super::types::SurfaceId, from: int)
    requires
        0 <= from,
        find_surface_id(defs, id, from) is None,
    ensures
        forall|d: int| from <= d < defs.len() ==> defs[d].surface.id != id,
    decreases defs.len() - from,
{
    if from < defs.len() {
        lemma_find_surface_id_none(defs, id, from + 1);
    }
}

/// Registering a batch keeps surface ids unique across all providers: the
/// batch repeats no id and reuses no registered one, or it is refused.
pub proof fn lemma_registration_keeps_ids_unique(
    providers: Seq<ProviderToken>,
    defs: Seq<SurfaceDefinition>,
    id: ProviderId,
    specs: Seq<SurfaceSpec>,
    provider_capacity: int,
    surface_capacity: int,
    next_generation: u32,
)
    requires
        surface_ids_unique(defs),
        registration_spec(providers, defs, id, specs, provider_capacity, surface_capacity, next_generation) is Ok,
    ensures
        surface_ids_unique(
            defs + bound_definitions(
                specs,
                registration_spec(providers, defs, id, specs, provider_capacity, surface_capacity, next_generation)->Ok_0,
            ),
        ),
{
    let token = registration_spec(providers, defs, id, specs, provider_capacity, surface_capacity, next_generation)->Ok_0;
    let added = bound_definitions(specs, token);
    let all = defs + added;
    lemma_no_batch_duplicate(specs, 0);
    lemma_no_registered_duplicate(defs, specs, 0);
    assert forall|i: int, j: int| 0 <= i < j < all.len() implies all[i].surface.id != all[j].surface.id by {
        if j < defs.len() {
        } else if i < defs.len() {
            assert(all[j] == added[j - defs.len()]);
        } else {
            assert(all[i] == added[i - defs.len()]);
            assert(all[j] == added[j - defs.len()]);
        }
    }
}

proof fn lemma_token_index(s: Seq<OverlayEntry>, t: SurfaceInstanceToken, from: int)
    requires
        0 <= from,
    ensures
        token_index(s, t, from) matches Some(i) ==> from <= i < s.len() && s[i].instance.token == t,
    decreases s.len() - from,
{
    if from < s.len() && s[from].instance.token != t {
        lemma_token_index(s, t, from + 1);
    }
}

proof fn lemma_live_position_bounds(live: Seq<OverlayEntry>, e: OverlayEntry, from: int)
    requires
        0 <= from,
    ensures
        0 <= live_position(live, e, from) <= live.len(),
    decreases live.len() - from,
{
    if from < live.len() && !super::composition::live_after(live[from], e) {
        lemma_live_position_bounds(live, e, from + 1);
    }
}

/// Everything live after a cleanup was live or queued before it.
proof fn lemma_cleanup_members(
    live: Seq<OverlayEntry>,
    queued: Seq<OverlayEntry>,
    owner: Option<ProviderToken>,
    drop_transient: bool,
)
    ensures
        forall|x: OverlayEntry|
            #[trigger] cleanup_spec(live, queued, owner, drop_transient).live.contains(x) ==> live.contains(x)
                || queued.contains(x),
{
    let rest = live.filter(kept_by(owner, drop_transient));
    let waiting = queued.filter(kept_by(owner, drop_transient));
    assert forall|x: OverlayEntry| rest.contains(x) implies live.contains(x) by {
        live.lemma_filter_contains_rev(kept_by(owner, drop_transient), x);
    }
    if super::composition::has_modal(live.filter(dropped_by(owner, drop_transient))) && waiting.len() > 0 {
        let p = waiting[0];
        assert(waiting.contains(p));
        queued.lemma_filter_contains_rev(kept_by(owner, drop_transient), p);
        let pos = live_position(rest, p, 0);
        lemma_live_position_bounds(rest, p, 0);
        let out = rest.insert(pos, p);
        assert forall|x: OverlayEntry| out.contains(x) implies rest.contains(x) || x == p by {
            let k = choose|k: int| 0 <= k < out.len() && out[k] == x;
            if k < pos {
                assert(out[k] == rest[k]);
            } else if k > pos {
                assert(out[k] == rest[k - 1]);
            }
        }
    }
}

/// A navigation that gives the destination a new instance retires the old
/// one: the old instance is no longer live, so intents it sends are refused,
/// while the new instance is.
pub proof fn lemma_navigation_retires_old_instance(
    s: ShellState,
    p: NavigationPlanView,
    again: OwnedNavIntent,
    stack: int,
    live: int,
    modals: int,
    intents: int,
)
    requires
        instances_fresh(s),
        (exists|intent| prepare_intent_spec(s, intent, stack) == Ok::<_, ShellNavigationError>(p)) || recovery_spec(s)
            == Ok::<_, ShellNavigationError>(p),
        p.issues_instance,
        commit_navigation_spec(s, p, stack, live, modals).0 is Ok,
        again.source == s.active,
    ensures
        ({
            let after = commit_navigation_spec(s, p, stack, live, modals).1;
            &&& !is_live_instance(after, s.active)
            &&& is_live_instance(after, p.destination_instance)
            &&& queue_intent_spec(after, again, intents) != Ok::<(), IntentQueueError>(())
        }),
{
    let after = commit_navigation_spec(s, p, stack, live, modals).1;
    assert(p.live == cleanup_spec(s.live, s.queued, None, true).live);
    lemma_cleanup_members(s.live, s.queued, None, true);
    lemma_token_index(after.live, s.active, 0);
    if token_index(after.live, s.active, 0) is Some {
        let i = token_index(after.live, s.active, 0)->0;
        let x = after.live[i];
        assert(after.live.contains(x));
        assert(s.live.contains(x) || s.queued.contains(x));
        if s.live.contains(x) {
            let k = choose|k: int| 0 <= k < s.live.len() && s.live[k] == x;
            assert(s.live[k].instance.token != s.active);
        } else {
            let k = choose|k: int| 0 <= k < s.queued.len() && s.queued[k] == x;
            assert(s.queued[k].instance.token != s.active);
        }
    }
}

/// `r` holds of every pair of entries in order.
pub open spec fn pairwise<A>(s: Seq<A>, r: spec_fn(A, A) -> bool) -> bool {
    forall|i: int, j: int| 0 <= i < j < s.len() ==> #[trigger] r(s[i], s[j])
}

/// Base-system modals wait ahead of every provider modal.
pub open spec fn provider_after_provider() -> spec_fn(OverlayEntry, OverlayEntry) -> bool {
    |a: OverlayEntry, b: OverlayEntry| a.instance.band == OverlayBand::Provider ==> b.instance.band == OverlayBand::Provider
}

/// No two entries are both modal.
pub open spec fn not_both_modal() -> spec_fn(OverlayEntry, OverlayEntry) -> bool {
    |a: OverlayEntry, b: OverlayEntry| !(a.instance.input == OverlayInput::Modal && b.instance.input == OverlayInput::Modal)
}

/// Every queued entry is a modal.
pub open spec fn all_modal(q: Seq<OverlayEntry>) -> bool {
    forall|i: int| 0 <= i < q.len() ==> (#[trigger] q[i]).instance.input == OverlayInput::Modal
}

/// The overlay lists as the shell keeps them: at most one live modal, only
/// modals queued, base-system modals queued ahead of provider ones.
pub open spec fn composition_ordered(live: Seq<OverlayEntry>, queued: Seq<OverlayEntry>) -> bool {
    &&& pairwise(live, not_both_modal())
    &&& all_modal(queued)
    &&& pairwise(queued, provider_after_provider())
}

proof fn lemma_filter_pairwise<A>(s: Seq<A>, p: spec_fn(A) -> bool, r: spec_fn(A, A) -> bool)
    requires
        pairwise(s, r),
    ensures
        pairwise(s.filter(p), r),
    decreases s.len(),
{
    reveal(Seq::filter);
    if s.len() > 0 {
        let init = s.drop_last();
        assert(pairwise(init, r)) by {
            assert forall|i: int, j: int| 0 <= i < j < init.len() implies #[trigger] r(init[i], init[j]) by {
                assert(r(s[i], s[j]));
            }
        }
        lemma_filter_pairwise(init, p, r);
        let f = init.filter(p);
        if p(s.last()) {
            let g = f.push(s.last());
            assert forall|i: int, j: int| 0 <= i < j < g.len() implies #[trigger] r(g[i], g[j]) by {
                if j == g.len() - 1 {
                    assert(f.contains(g[i]));
                    init.lemma_filter_contains_rev(p, g[i]);
                    let k = choose|k: int| 0 <= k < init.len() && init[k] == g[i];
                    assert(r(s[k], s[s.len() - 1]));
                } else {
                    assert(r(f[i], f[j]));
                }
            }
        }
    }
}

proof fn lemma_remove_pairwise<A>(s: Seq<A>, k: int, r: spec_fn(A, A) -> bool)
    requires
        pairwise(s, r),
        0 <= k < s.len(),
    ensures
        pairwise(s.remove(k), r),
{
    let t = s.remove(k);
    assert forall|i: int, j: int| 0 <= i < j < t.len() implies #[trigger] r(t[i], t[j]) by {
        let a = if i < k { i } else { i + 1 };
        let b = if j < k { j } else { j + 1 };
        assert(t[i] == s[a] && t[j] == s[b]);
        assert(r(s[a], s[b]));
    }
}

proof fn lemma_drop_first_pairwise<A>(s: Seq<A>, r: spec_fn(A, A) -> bool)
    requires
        pairwise(s, r),
        s.len() > 0,
    ensures
        pairwise(s.drop_first(), r),
{
    let t = s.drop_first();
    assert forall|i: int, j: int| 0 <= i < j < t.len() implies #[trigger] r(t[i], t[j]) by {
        assert(r(s[i + 1], s[j + 1]));
    }
}

proof fn lemma_filter_all_modal(q: Seq<OverlayEntry>, p: spec_fn(OverlayEntry) -> bool)
    requires
        all_modal(q),
    ensures
        all_modal(q.filter(p)),
{
    let f = q.filter(p);
    assert forall|i: int| 0 <= i < f.len() implies (#[trigger] f[i]).instance.input == OverlayInput::Modal by {
        assert(f.contains(f[i]));
        q.lemma_filter_contains_rev(p, f[i]);
    }
}

proof fn lemma_queue_position(q: Seq<OverlayEntry>, e: OverlayEntry, from: int)
    requires
        0 <= from,
        e.instance.band != OverlayBand::Provider,
        forall|k: int| 0 <= k < from && k < q.len() ==> q[k].instance.band != OverlayBand::Provider,
    ensures
        0 <= queue_position(q, e, from) <= q.len(),
        forall|k: int| 0 <= k < queue_position(q, e, from) ==> q[k].instance.band != OverlayBand::Provider,
    decreases q.len() - from,
{
    if from < q.len() && q[from].instance.band != OverlayBand::Provider {
        lemma_queue_position(q, e, from + 1);
    }
}

proof fn lemma_queue_insert(q: Seq<OverlayEntry>, e: OverlayEntry)
    requires
        pairwise(q, provider_after_provider()),
        all_modal(q),
        e.instance.input == OverlayInput::Modal,
    ensures
        pairwise(q.insert(queue_position(q, e, 0), e), provider_after_provider()),
        all_modal(q.insert(queue_position(q, e, 0), e)),
{
    let pos = queue_position(q, e, 0);
    if e.instance.band != OverlayBand::Provider {
        lemma_queue_position(q, e, 0);
    }
    let t = q.insert(pos, e);
    assert forall|i: int, j: int| 0 <= i < j < t.len() implies #[trigger] provider_after_provider()(t[i], t[j]) by {
        let a = if i < pos { i } else { i - 1 };
        let b = if j < pos { j } else { j - 1 };
        if i != pos && j != pos {
            assert(t[i] == q[a] && t[j] == q[b]);
            assert(provider_after_provider()(q[a], q[b]));
        } else if j == pos {
            assert(t[i] == q[i]);
        } else {
            assert(t[j] == q[b]);
        }
    }
    assert forall|i: int| 0 <= i < t.len() implies (#[trigger] t[i]).instance.input == OverlayInput::Modal by {
        if i < pos {
            assert(t[i] == q[i]);
        } else if i > pos {
            assert(t[i] == q[i - 1]);
        }
    }
}

proof fn lemma_modal_index_none(live: Seq<OverlayEntry>, from: int)
    requires
        0 <= from,
        modal_index(live, from) is None,
    ensures
        forall|k: int| from <= k < live.len() ==> live[k].instance.input != OverlayInput::Modal,
    decreases live.len() - from,
{
    if from < live.len() {
        lemma_modal_index_none(live, from + 1);
    }
}

proof fn lemma_modal_index_some(live: Seq<OverlayEntry>, from: int)
    requires
        0 <= from,
        modal_index(live, from) is Some,
    ensures
        from <= modal_index(live, from)->0 < live.len(),
        live[modal_index(live, from)->0].instance.input == OverlayInput::Modal,
    decreases live.len() - from,
{
    if from < live.len() && live[from].instance.input != OverlayInput::Modal {
        lemma_modal_index_some(live, from + 1);
    }
}

/// Inserting `e` into a list without modals, or a non-modal `e` into a list
/// with at most one, keeps at most one modal.
proof fn lemma_live_insert(live: Seq<OverlayEntry>, e: OverlayEntry, pos: int)
    requires
        pairwise(live, not_both_modal()),
        0 <= pos <= live.len(),
        e.instance.input == OverlayInput::Modal ==> forall|k: int| 0 <= k < live.len() ==> live[k].instance.input
            != OverlayInput::Modal,
    ensures
        pairwise(live.insert(pos, e), not_both_modal()),
{
    let t = live.insert(pos, e);
    assert forall|i: int, j: int| 0 <= i < j < t.len() implies #[trigger] not_both_modal()(t[i], t[j]) by {
        let a = if i < pos { i } else { i - 1 };
        let b = if j < pos { j } else { j - 1 };
        if i != pos && j != pos {
            assert(t[i] == live[a] && t[j] == live[b]);
            assert(not_both_modal()(live[a], live[b]));
        } else if i == pos {
            assert(t[j] == live[b]);
        } else {
            assert(t[i] == live[a]);
        }
    }
}

/// Removing the only modal leaves none.
proof fn lemma_remove_modal(live: Seq<OverlayEntry>, m: int)
    requires
        pairwise(live, not_both_modal()),
        0 <= m < live.len(),
        live[m].instance.input == OverlayInput::Modal,
    ensures
        forall|k: int| 0 <= k < live.remove(m).len() ==> live.remove(m)[k].instance.input != OverlayInput::Modal,
{
    let t = live.remove(m);
    assert forall|k: int| 0 <= k < t.len() implies t[k].instance.input != OverlayInput::Modal by {
        if k < m {
            assert(t[k] == live[k]);
            assert(not_both_modal()(live[k], live[m]));
        } else {
            assert(t[k] == live[k + 1]);
            assert(not_both_modal()(live[m], live[k + 1]));
        }
    }
}

/// Admitting an overlay keeps the lists ordered: at most one live modal,
/// only modals queued, base-system modals ahead of provider ones.
pub proof fn lemma_admission_keeps_order(
    live: Seq<OverlayEntry>,
    queued: Seq<OverlayEntry>,
    e: OverlayEntry,
    live_capacity: int,
    queue_capacity: int,
)
    requires
        composition_ordered(live, queued),
    ensures
        admission_spec(live, queued, e, live_capacity, queue_capacity) matches Ok(o) ==> composition_ordered(
            o.live,
            o.queued,
        ),
{
    if let Ok(o) = admission_spec(live, queued, e, live_capacity, queue_capacity) {
        if e.instance.input != OverlayInput::Modal || modal_index(live, 0) is None {
            if e.instance.input == OverlayInput::Modal {
                lemma_modal_index_none(live, 0);
            }
            super::shell_laws::lemma_live_position_bounds(live, e, 0);
            lemma_live_insert(live, e, live_position(live, e, 0));
        } else {
            lemma_modal_index_some(live, 0);
            let m = modal_index(live, 0)->0;
            if e.instance.band == OverlayBand::BaseSystem && live[m].instance.band == OverlayBand::Provider {
                let rest = live.remove(m);
                lemma_remove_modal(live, m);
                lemma_remove_pairwise(live, m, not_both_modal());
                lemma_live_position_bounds(rest, e, 0);
                lemma_live_insert(rest, e, live_position(rest, e, 0));
            } else if queued.len() < queue_capacity {
                lemma_queue_insert(queued, e);
            } else {
                let k = super::composition::last_provider_index(queued, queued.len() as int)->0;
                lemma_last_provider_index(queued, queued.len() as int);
                let rest = queued.remove(k);
                lemma_remove_pairwise(queued, k, provider_after_provider());
                assert(all_modal(rest)) by {
                    assert forall|i: int| 0 <= i < rest.len() implies (#[trigger] rest[i]).instance.input
                        == OverlayInput::Modal by {
                        if i < k {
                            assert(rest[i] == queued[i]);
                        } else {
                            assert(rest[i] == queued[i + 1]);
                        }
                    }
                }
                lemma_queue_insert(rest, e);
            }
        }
    }
}

proof fn lemma_last_provider_index(q: Seq<OverlayEntry>, upto: int)
    requires
        upto <= q.len(),
    ensures
        super::composition::last_provider_index(q, upto) matches Some(k) ==> 0 <= k < upto,
    decreases upto,
{
    if upto > 0 && q[upto - 1].instance.band != OverlayBand::Provider {
        lemma_last_provider_index(q, upto - 1);
    }
}

/// Removing an overlay keeps the lists ordered.
pub proof fn lemma_removal_keeps_order(live: Seq<OverlayEntry>, queued: Seq<OverlayEntry>, token: SurfaceInstanceToken)
    requires
        composition_ordered(live, queued),
    ensures
        removal_spec(live, queued, token) matches Some(o) ==> composition_ordered(o.live, o.queued),
{
    lemma_token_index(live, token, 0);
    lemma_token_index(queued, token, 0);
    match token_index(live, token, 0) {
        Some(i) => {
            let rest = live.remove(i);
            lemma_remove_pairwise(live, i, not_both_modal());
            if live[i].instance.input == OverlayInput::Modal && queued.len() > 0 {
                let p = queued[0];
                lemma_remove_modal(live, i);
                lemma_live_position_bounds(rest, p, 0);
                lemma_live_insert(rest, p, live_position(rest, p, 0));
                lemma_drop_first_pairwise(queued, provider_after_provider());
            }
        },
        None => match token_index(queued, token, 0) {
            Some(j) => {
                lemma_remove_pairwise(queued, j, provider_after_provider());
                let rest = queued.remove(j);
                assert forall|k: int| 0 <= k < rest.len() implies (#[trigger] rest[k]).instance.input
                    == OverlayInput::Modal by {
                    if k < j {
                        assert(rest[k] == queued[k]);
                    } else {
                        assert(rest[k] == queued[k + 1]);
                    }
                }
            },
            None => {},
        },
    }
}

/// A cleanup keeps the lists ordered.
pub proof fn lemma_cleanup_keeps_order(
    live: Seq<OverlayEntry>,
    queued: Seq<OverlayEntry>,
    owner: Option<ProviderToken>,
    drop_transient: bool,
)
    requires
        composition_ordered(live, queued),
    ensures
        composition_ordered(
            cleanup_spec(live, queued, owner, drop_transient).live,
            cleanup_spec(live, queued, owner, drop_transient).queued,
        ),
{
    let keep = kept_by(owner, drop_transient);
    let drop = dropped_by(owner, drop_transient);
    let rest = live.filter(keep);
    let gone = live.filter(drop);
    let waiting = queued.filter(keep);
    lemma_filter_pairwise(live, keep, not_both_modal());
    lemma_filter_pairwise(queued, keep, provider_after_provider());
    lemma_filter_all_modal(queued, keep);
    if has_modal(gone) && waiting.len() > 0 {
        let p = waiting[0];
        assert forall|k: int| 0 <= k < rest.len() implies rest[k].instance.input != OverlayInput::Modal by {
            if rest[k].instance.input == OverlayInput::Modal {
                let g = choose|g: int| 0 <= g < gone.len() && (#[trigger] gone[g]).instance.input == OverlayInput::Modal;
                assert(rest.contains(rest[k]));
                assert(gone.contains(gone[g]));
                live.lemma_filter_contains_rev(keep, rest[k]);
                live.lemma_filter_contains_rev(drop, gone[g]);
                live.lemma_filter_pred(keep, k);
                live.lemma_filter_pred(drop, g);
                let a = choose|a: int| 0 <= a < live.len() && live[a] == rest[k];
                let b = choose|b: int| 0 <= b < live.len() && live[b] == gone[g];
                assert(a != b);
                if a < b {
                    assert(not_both_modal()(live[a], live[b]));
                } else {
                    assert(not_both_modal()(live[b], live[a]));
                }
            }
        }
        lemma_live_position_bounds(rest, p, 0);
        lemma_live_insert(rest, p, live_position(rest, p, 0));
        lemma_drop_first_pairwise(waiting, provider_after_provider());
    }
}

} // verus!
