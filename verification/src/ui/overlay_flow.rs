//! The decisions the LVGL backend takes for overlays and settings: which
//! overlays show over the running screen, how a composition plan is carried
//! out, how a live overlay is dismissed, and how a settings request is
//! applied. The backend creates, enables and deletes the objects; these
//! functions say what follows from each result.
use vstd::prelude::*;

use crate::shell::catalogue::{entry_ready_spec, CatalogueViewKind, CompiledCatalogue, EntryId};
use crate::shell::composition::CompositionPlanResult;
use crate::shell::types::{NavIntent, OverlayAdmission, OverlayDismissal, OverlayInstance, UiSettingsIntent};
use crate::ui::settlement::BackendFaults;

verus! {

/// Whether an overlay shows: a screen that owns the display exclusively
/// (the ambient view) hides every overlay but modals.
pub fn overlay_visible(exclusive: bool, is_modal: bool) -> (r: bool)
    ensures
        r == (!exclusive || is_modal),
{
    !exclusive || is_modal
}

/// How a prepared composition plan is carried out.
#[derive(Clone, Copy, Debug, PartialEq, Eq, Structural)]
pub enum CompositionRoute {
    /// The overlay waits in the modal queue: commit, nothing to draw.
    CommitQueued(OverlayInstance),
    /// The overlay goes live: stage it and the overlays it displaces.
    EnterLive(OverlayInstance),
    /// A queued overlay leaves the queue: commit, nothing to draw.
    CommitQueuedRemoval(OverlayDismissal),
    /// A live overlay is dismissed, and a queued one may be promoted.
    RemoveLive(OverlayDismissal),
}

pub open spec fn composition_route_spec(r: CompositionPlanResult) -> CompositionRoute {
    match r {
        CompositionPlanResult::Admission(OverlayAdmission::Queued(i)) => CompositionRoute::CommitQueued(i),
        CompositionPlanResult::Admission(OverlayAdmission::Active(i)) => CompositionRoute::EnterLive(i),
        CompositionPlanResult::Removal(d) => if d.removed_was_live {
            CompositionRoute::RemoveLive(d)
        } else {
            CompositionRoute::CommitQueuedRemoval(d)
        },
    }
}

/// Decides how a prepared composition plan is carried out.
pub fn composition_route(r: CompositionPlanResult) -> (c: CompositionRoute)
    ensures
        c == composition_route_spec(r),
{
    match r {
        CompositionPlanResult::Admission(OverlayAdmission::Queued(i)) => CompositionRoute::CommitQueued(i),
        CompositionPlanResult::Admission(OverlayAdmission::Active(i)) => CompositionRoute::EnterLive(i),
        CompositionPlanResult::Removal(d) => if d.removed_was_live {
            CompositionRoute::RemoveLive(d)
        } else {
            CompositionRoute::CommitQueuedRemoval(d)
        },
    }
}

/// A commit confirms a plan only when the shell committed exactly what was
/// planned.
pub fn commit_confirms<E>(planned: CompositionPlanResult, committed: Result<CompositionPlanResult, E>) -> (r: bool)
    ensures
        r == (committed is Ok && committed->Ok_0 == planned),
{
    match committed {
        Ok(c) => c == planned,
        Err(_) => false,
    }
}

/// An overlay cannot enter when, after the displaced overlays leave, the
/// runtime would still hold `capacity` live overlays.
pub fn live_runtime_full(live: usize, departures: usize, capacity: usize) -> (r: bool)
    ensures
        r == ((if departures <= live { live - departures } else { 0 }) == capacity),
{
    live.saturating_sub(departures) == capacity
}

/// How the dismissal of a live overlay ended.
#[derive(Clone, Copy, Debug, PartialEq, Eq, Structural)]
pub enum DismissalOutcome {
    /// The promoted overlay could not be created: nothing changed.
    PromotionRefused,
    /// The promoted overlay could not be enabled.
    PromotionEnableFault,
    /// The runtime holds no overlay for the removed token.
    MissingRuntime,
    /// The removed overlay could not be disabled.
    QuiesceFault,
    /// The shell did not commit the dismissal: the overlay is shown again.
    RolledBack,
    /// The overlay is gone; the promoted one, if any, is live.
    Dismissed,
}

/// The results of the stages of a dismissal, in order. A stage after a
/// failed one is not run, and its result is not read.
#[derive(Clone, Copy, Debug, PartialEq, Eq, Structural)]
pub struct DismissalStages {
    /// The dismissal promotes a queued overlay.
    pub promotes: bool,
    pub promotion_created: bool,
    pub promotion_enabled: bool,
    pub runtime_found: bool,
    pub quiesced: bool,
    pub commit_confirmed: bool,
    /// After a rollback, the removed overlay was enabled again.
    pub reenabled: bool,
    /// The removed overlay's objects were deleted.
    pub destroyed: bool,
}

pub open spec fn dismissal_outcome_spec(s: DismissalStages) -> DismissalOutcome {
    if s.promotes && !s.promotion_created {
        DismissalOutcome::PromotionRefused
    } else if s.promotes && !s.promotion_enabled {
        DismissalOutcome::PromotionEnableFault
    } else if !s.runtime_found {
        DismissalOutcome::MissingRuntime
    } else if !s.quiesced {
        DismissalOutcome::QuiesceFault
    } else if !s.commit_confirmed {
        DismissalOutcome::RolledBack
    } else {
        DismissalOutcome::Dismissed
    }
}

/// What a dismissal leads to.
#[derive(Clone, Copy, Debug, PartialEq, Eq, Structural)]
pub struct DismissalSettlement {
    pub outcome: DismissalOutcome,
    pub faults: BackendFaults,
    /// The system layer stops capturing input: the last modal left and its
    /// objects were deleted.
    pub release_capture: bool,
}

/// Runtime faults of a dismissal fault navigation and composition: a
/// promotion that cannot be enabled, a missing or unquiesceable overlay,
/// and a rollback that cannot enable the overlay again. A dismissal without
/// promotion whose overlay was deleted releases the input capture.
pub open spec fn dismissal_settlement_spec(f: BackendFaults, s: DismissalStages) -> DismissalSettlement {
    let o = dismissal_outcome_spec(s);
    let faulted = match o {
        DismissalOutcome::PromotionEnableFault => true,
        DismissalOutcome::MissingRuntime => true,
        DismissalOutcome::QuiesceFault => true,
        DismissalOutcome::RolledBack => !s.reenabled,
        _ => false,
    };
    DismissalSettlement {
        outcome: o,
        faults: if faulted { BackendFaults { navigation_faulted: true, composition_faulted: true, ..f } } else { f },
        release_capture: o == DismissalOutcome::Dismissed && !s.promotes && s.destroyed,
    }
}

/// Settles the dismissal of a live overlay.
pub fn settle_dismissal(f: BackendFaults, s: DismissalStages) -> (d: DismissalSettlement)
    ensures
        d == dismissal_settlement_spec(f, s),
{
    let o = if s.promotes && !s.promotion_created {
        DismissalOutcome::PromotionRefused
    } else if s.promotes && !s.promotion_enabled {
        DismissalOutcome::PromotionEnableFault
    } else if !s.runtime_found {
        DismissalOutcome::MissingRuntime
    } else if !s.quiesced {
        DismissalOutcome::QuiesceFault
    } else if !s.commit_confirmed {
        DismissalOutcome::RolledBack
    } else {
        DismissalOutcome::Dismissed
    };
    let faulted = match o {
        DismissalOutcome::PromotionEnableFault => true,
        DismissalOutcome::MissingRuntime => true,
        DismissalOutcome::QuiesceFault => true,
        DismissalOutcome::RolledBack => !s.reenabled,
        _ => false,
    };
    let faults = if faulted {
        BackendFaults { navigation_faulted: true, composition_faulted: true, ..f }
    } else {
        f
    };
    let dismissed = matches!(o, DismissalOutcome::Dismissed);
    DismissalSettlement { outcome: o, faults, release_capture: dismissed && !s.promotes && s.destroyed }
}

/// The first step of a settings request.
#[derive(Clone, Copy, Debug, PartialEq, Eq, Structural)]
pub enum SettingsStep {
    /// Stale, blocked or unavailable: nothing changes.
    Reject,
    /// Record the ambient entry, then navigate home.
    SelectAmbient(EntryId),
    /// Install (`enable`) or remove the refresh-control overlay; when that
    /// works, record the toggle and navigate back.
    ToggleOverlay { id: EntryId, enable: bool },
}

/// A settings request is taken only from the running instance while
/// nothing is faulted or held. An ambient selection needs its entry ready
/// in the ambient picker; an overlay toggle must name the refresh control,
/// ready in the overlay settings, and flips whether it is enabled.
pub open spec fn settings_step_spec<const C: usize>(
    f: BackendFaults,
    from_active: bool,
    intent: UiSettingsIntent,
    catalogue: CompiledCatalogue<C>,
    refresh_control: EntryId,
    overlay_enabled: bool,
) -> SettingsStep {
    if !from_active || f.navigation_faulted || f.composition_faulted || f.cleanup_blocked || f.overlay_cleanup_blocked {
        SettingsStep::Reject
    } else {
        match intent {
            UiSettingsIntent::SelectAmbient(id) => if entry_ready_spec(
                catalogue.listed(),
                id,
                CatalogueViewKind::AmbientPicker,
            ) {
                SettingsStep::SelectAmbient(id)
            } else {
                SettingsStep::Reject
            },
            UiSettingsIntent::ToggleOverlay(id) => if id == refresh_control && entry_ready_spec(
                catalogue.listed(),
                id,
                CatalogueViewKind::OverlaySettings,
            ) {
                SettingsStep::ToggleOverlay { id, enable: !overlay_enabled }
            } else {
                SettingsStep::Reject
            },
        }
    }
}

/// Decides the first step of a settings request; `from_active` says
/// whether its source is the running instance and `overlay_enabled` whether
/// the refresh control is enabled now.
pub fn settings_step<const C: usize>(
    f: BackendFaults,
    from_active: bool,
    intent: UiSettingsIntent,
    catalogue: &CompiledCatalogue<C>,
    refresh_control: EntryId,
    overlay_enabled: bool,
) -> (s: SettingsStep)
    ensures
        s == settings_step_spec(f, from_active, intent, *catalogue, refresh_control, overlay_enabled),
{
    if !from_active || f.navigation_faulted || f.composition_faulted || f.cleanup_blocked || f.overlay_cleanup_blocked {
        return SettingsStep::Reject;
    }
    match intent {
        UiSettingsIntent::SelectAmbient(id) => if catalogue.entry_is_ready_for(id, CatalogueViewKind::AmbientPicker) {
            SettingsStep::SelectAmbient(id)
        } else {
            SettingsStep::Reject
        },
        UiSettingsIntent::ToggleOverlay(id) => if id == refresh_control && catalogue.entry_is_ready_for(
            id,
            CatalogueViewKind::OverlaySettings,
        ) {
            SettingsStep::ToggleOverlay { id, enable: !overlay_enabled }
        } else {
            SettingsStep::Reject
        },
    }
}

/// Where a settings request navigates once it is applied: home after an
/// ambient selection, back after an overlay toggle.
pub fn settings_return(intent: UiSettingsIntent) -> (n: NavIntent)
    ensures
        n == (match intent {
            UiSettingsIntent::SelectAmbient(_) => NavIntent::Home,
            UiSettingsIntent::ToggleOverlay(_) => NavIntent::Back,
        }),
{
    match intent {
        UiSettingsIntent::SelectAmbient(_) => NavIntent::Home,
        UiSettingsIntent::ToggleOverlay(_) => NavIntent::Back,
    }
}

/// No dismissal clears a fault or a held cleanup, and only a runtime fault
/// sets one: a refused promotion and a clean rollback leave every flag as
/// it was.
pub proof fn lemma_dismissal_faults_only_on_runtime_faults(f: BackendFaults, s: DismissalStages)
    ensures
        ({
            let d = dismissal_settlement_spec(f, s);
            &&& f.navigation_faulted ==> d.faults.navigation_faulted
            &&& f.composition_faulted ==> d.faults.composition_faulted
            &&& d.faults.lifecycle_audit_faulted == f.lifecycle_audit_faulted
            &&& d.faults.cleanup_blocked == f.cleanup_blocked
            &&& d.faults.overlay_cleanup_blocked == f.overlay_cleanup_blocked
            &&& (d.outcome == DismissalOutcome::PromotionRefused || d.outcome == DismissalOutcome::Dismissed
                || (d.outcome == DismissalOutcome::RolledBack && s.reenabled)) ==> d.faults == f
            &&& d.release_capture ==> d.outcome == DismissalOutcome::Dismissed
        }),
{
}

/// A settings request from anything but the running instance, or while a
/// fault or a held cleanup stands, changes nothing.
pub proof fn lemma_settings_need_a_clean_running_source<const C: usize>(
    f: BackendFaults,
    from_active: bool,
    intent: UiSettingsIntent,
    catalogue: CompiledCatalogue<C>,
    refresh_control: EntryId,
    overlay_enabled: bool,
)
    requires
        !from_active || f.navigation_faulted || f.composition_faulted || f.cleanup_blocked
            || f.overlay_cleanup_blocked,
    ensures
        settings_step_spec(f, from_active, intent, catalogue, refresh_control, overlay_enabled)
            == SettingsStep::Reject,
{
}

} // verus!
