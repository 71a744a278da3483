//! How the LVGL backend settles a surface transition. The transition itself
//! (entering the destination, quiescing and deleting the origin) is screen
//! work; what a finished transition does to the backend's fault flags, and
//! which overlay work follows, is decided here: for a navigation, for the
//! recovery of the ambient home screen, and for the removal of a provider;
//! so is what the retries of held cleanups and the deletion of departing
//! overlays do to those flags.
use vstd::prelude::*;

use crate::shell::types::{NavIntent, OwnedNavIntent, ProviderToken, SurfaceInstanceToken, SurfaceRef};
use crate::ui::navigation_flow::{
    disposition_spec, intent_disposition, settlement_spec, settle_rolled_back, IntentDisposition, RollbackSettlement,
};

verus! {

/// The backend's fault and blocking flags.
#[derive(Clone, Copy, Debug, PartialEq, Eq, Structural)]
pub struct BackendFaults {
    /// Navigation stops: queued intents are dropped.
    pub navigation_faulted: bool,
    /// The overlay runtime and the shell's composition disagree.
    pub composition_faulted: bool,
    /// A lifecycle audit failed.
    pub lifecycle_audit_faulted: bool,
    /// A surface whose cleanup could not finish is held.
    pub cleanup_blocked: bool,
    /// An overlay whose cleanup could not finish is held.
    pub overlay_cleanup_blocked: bool,
}

/// Why a rolled-back transition rolled back, as far as the backend reads it.
#[derive(Clone, Copy, Debug, PartialEq, Eq, Structural)]
pub enum RollbackCause {
    /// The destination failed to enter; the origin never left the screen.
    Entry,
    /// A later stage failed (activation, quiescing, enabling the candidate
    /// or the shell commit); the origin may or may not be back.
    AfterEntry { origin_restored: bool },
}

/// How a transition ended.
#[derive(Clone, Copy, Debug, PartialEq, Eq, Structural)]
pub enum TransitionReport {
    /// The shell committed and the origin was cleaned up.
    Committed,
    /// The shell state is unchanged.
    RolledBack { cleanup_blocked: bool, cleanup_audit_failed: bool, cause: RollbackCause },
    /// The shell committed but cleaning up the origin failed.
    FaultedAfterCommit { cleanup_blocked: bool, cleanup_audit_failed: bool },
}

/// The overlay work that follows a transition.
#[derive(Clone, Copy, Debug, PartialEq, Eq, Structural)]
pub enum OverlayFollowUp {
    /// Finish the staged departures and activate the staged entries.
    Complete,
    /// Put the staged departures back and destroy the staged entries.
    Revert,
}

/// Whether the shell took the transition's commit.
pub open spec fn shell_committed(r: TransitionReport) -> bool {
    !(r is RolledBack)
}

/// Whether the origin screen is back after a rollback.
pub open spec fn origin_restored_spec(c: RollbackCause) -> bool {
    match c {
        RollbackCause::Entry => true,
        RollbackCause::AfterEntry { origin_restored } => origin_restored,
    }
}

/// Overlay work follows the shell: completed when it committed, reverted
/// when it rolled back.
pub open spec fn follow_up_spec(r: TransitionReport) -> OverlayFollowUp {
    if shell_committed(r) { OverlayFollowUp::Complete } else { OverlayFollowUp::Revert }
}

/// The flags after the cleanup result of a transition is recorded: a
/// failed cleanup audit is kept, and the held surface is the one the
/// transition reports. A committed transition leaves them as they were.
pub open spec fn record_cleanup_spec(f: BackendFaults, r: TransitionReport) -> BackendFaults {
    match r {
        TransitionReport::Committed => f,
        TransitionReport::RolledBack { cleanup_blocked, cleanup_audit_failed, .. } => BackendFaults {
            lifecycle_audit_faulted: f.lifecycle_audit_faulted || cleanup_audit_failed,
            cleanup_blocked,
            ..f
        },
        TransitionReport::FaultedAfterCommit { cleanup_blocked, cleanup_audit_failed } => BackendFaults {
            lifecycle_audit_faulted: f.lifecycle_audit_faulted || cleanup_audit_failed,
            cleanup_blocked,
            ..f
        },
    }
}

fn origin_restored(c: RollbackCause) -> (r: bool)
    ensures
        r == origin_restored_spec(c),
{
    match c {
        RollbackCause::Entry => true,
        RollbackCause::AfterEntry { origin_restored } => origin_restored,
    }
}

/// Decides the overlay work that follows a transition.
pub fn overlay_follow_up(r: TransitionReport) -> (o: OverlayFollowUp)
    ensures
        o == follow_up_spec(r),
{
    match r {
        TransitionReport::RolledBack { .. } => OverlayFollowUp::Revert,
        _ => OverlayFollowUp::Complete,
    }
}

/// Records the cleanup result of a transition in the flags.
pub fn record_cleanup(f: BackendFaults, r: TransitionReport) -> (g: BackendFaults)
    ensures
        g == record_cleanup_spec(f, r),
{
    match r {
        TransitionReport::Committed => f,
        TransitionReport::RolledBack { cleanup_blocked, cleanup_audit_failed, .. } => BackendFaults {
            lifecycle_audit_faulted: f.lifecycle_audit_faulted || cleanup_audit_failed,
            cleanup_blocked,
            ..f
        },
        TransitionReport::FaultedAfterCommit { cleanup_blocked, cleanup_audit_failed } => BackendFaults {
            lifecycle_audit_faulted: f.lifecycle_audit_faulted || cleanup_audit_failed,
            cleanup_blocked,
            ..f
        },
    }
}

/// What a finished navigation transition leads to.
#[derive(Clone, Copy, Debug, PartialEq, Eq, Structural)]
pub struct NavigationSettlement {
    /// The flags afterwards. When `rollback` asks for an ambient recovery,
    /// `navigation_faulted` is decided by the recovery's result.
    pub faults: BackendFaults,
    pub overlays: OverlayFollowUp,
    /// The destination's catalogue entry is marked faulted.
    pub mark_destination_faulted: bool,
    /// How a rollback settles; `None` when the shell committed.
    pub rollback: Option<RollbackSettlement>,
}

/// The settlement of a navigation transition. A commit leaves the flags
/// alone; a fault after the commit stops navigation; a rollback marks a
/// destination that failed to enter, and restores the origin, asks for an
/// ambient recovery or faults, as `settlement_spec` says.
pub open spec fn navigation_settlement_spec(f: BackendFaults, r: TransitionReport) -> NavigationSettlement {
    let g = record_cleanup_spec(f, r);
    match r {
        TransitionReport::Committed => NavigationSettlement {
            faults: g,
            overlays: OverlayFollowUp::Complete,
            mark_destination_faulted: false,
            rollback: None,
        },
        TransitionReport::FaultedAfterCommit { .. } => NavigationSettlement {
            faults: BackendFaults { navigation_faulted: true, ..g },
            overlays: OverlayFollowUp::Complete,
            mark_destination_faulted: false,
            rollback: None,
        },
        TransitionReport::RolledBack { cleanup_blocked, cleanup_audit_failed, cause } => {
            let s = settlement_spec(origin_restored_spec(cause), cleanup_blocked, cleanup_audit_failed);
            NavigationSettlement {
                faults: match s {
                    RollbackSettlement::RestoreOrigin { navigation_faulted } => BackendFaults { navigation_faulted, ..g },
                    RollbackSettlement::RecoverAmbient => g,
                    RollbackSettlement::Fault => BackendFaults { navigation_faulted: true, ..g },
                },
                overlays: OverlayFollowUp::Revert,
                mark_destination_faulted: cause is Entry,
                rollback: Some(s),
            }
        },
    }
}

/// Settles a finished navigation transition.
pub fn settle_navigation(f: BackendFaults, r: TransitionReport) -> (s: NavigationSettlement)
    ensures
        s == navigation_settlement_spec(f, r),
        s.overlays == follow_up_spec(r),
{
    let g = record_cleanup(f, r);
    match r {
        TransitionReport::Committed => NavigationSettlement {
            faults: g,
            overlays: OverlayFollowUp::Complete,
            mark_destination_faulted: false,
            rollback: None,
        },
        TransitionReport::FaultedAfterCommit { .. } => NavigationSettlement {
            faults: BackendFaults { navigation_faulted: true, ..g },
            overlays: OverlayFollowUp::Complete,
            mark_destination_faulted: false,
            rollback: None,
        },
        TransitionReport::RolledBack { cleanup_blocked, cleanup_audit_failed, cause } => {
            let s = settle_rolled_back(origin_restored(cause), cleanup_blocked, cleanup_audit_failed);
            let faults = match s {
                RollbackSettlement::RestoreOrigin { navigation_faulted } => BackendFaults { navigation_faulted, ..g },
                RollbackSettlement::RecoverAmbient => g,
                RollbackSettlement::Fault => BackendFaults { navigation_faulted: true, ..g },
            };
            NavigationSettlement {
                faults,
                overlays: OverlayFollowUp::Revert,
                mark_destination_faulted: matches!(cause, RollbackCause::Entry),
                rollback: Some(s),
            }
        },
    }
}

/// What a finished ambient recovery leads to.
#[derive(Clone, Copy, Debug, PartialEq, Eq, Structural)]
pub struct RecoverySettlement {
    pub faults: BackendFaults,
    pub overlays: OverlayFollowUp,
    /// The home screen is up and renderable.
    pub recovered: bool,
}

/// The settlement of the transition that recreates the ambient home
/// screen: a commit releases the held surface and recovers when the new
/// screen is renderable; anything else records the cleanup result and does
/// not recover.
pub open spec fn recovery_settlement_spec(f: BackendFaults, r: TransitionReport, renderable: bool) -> RecoverySettlement {
    match r {
        TransitionReport::Committed => RecoverySettlement {
            faults: BackendFaults { cleanup_blocked: false, ..f },
            overlays: OverlayFollowUp::Complete,
            recovered: renderable,
        },
        _ => RecoverySettlement {
            faults: record_cleanup_spec(f, r),
            overlays: follow_up_spec(r),
            recovered: false,
        },
    }
}

/// Settles the transition of an ambient recovery; `renderable` says
/// whether the screen that is up afterwards can be drawn.
pub fn settle_recovery(f: BackendFaults, r: TransitionReport, renderable: bool) -> (s: RecoverySettlement)
    ensures
        s == recovery_settlement_spec(f, r, renderable),
        s.overlays == follow_up_spec(r),
{
    match r {
        TransitionReport::Committed => RecoverySettlement {
            faults: BackendFaults { cleanup_blocked: false, ..f },
            overlays: OverlayFollowUp::Complete,
            recovered: renderable,
        },
        _ => RecoverySettlement { faults: record_cleanup(f, r), overlays: overlay_follow_up(r), recovered: false },
    }
}

/// After an ambient recovery that a rollback asked for, navigation is
/// faulted exactly when the recovery failed.
pub fn after_ambient_recovery(f: BackendFaults, recovered: bool) -> (g: BackendFaults)
    ensures
        g == (BackendFaults { navigation_faulted: !recovered, ..f }),
{
    BackendFaults { navigation_faulted: !recovered, ..f }
}

/// What staging the overlays of a plan found. Entries are staged first;
/// departures only once the entries are.
#[derive(Clone, Copy, Debug, PartialEq, Eq, Structural)]
pub enum StagingOutcome {
    Proceed,
    /// An entering overlay could not be created: the plan is dropped.
    EntriesRefused,
    /// A departing overlay is not where the shell says it is.
    DeparturesMisaligned,
}

pub open spec fn staging_spec(entries_staged: bool, departures_staged: bool) -> StagingOutcome {
    if !entries_staged {
        StagingOutcome::EntriesRefused
    } else if !departures_staged {
        StagingOutcome::DeparturesMisaligned
    } else {
        StagingOutcome::Proceed
    }
}

/// Decides what staging found.
pub fn staging_outcome(entries_staged: bool, departures_staged: bool) -> (o: StagingOutcome)
    ensures
        o == staging_spec(entries_staged, departures_staged),
{
    if !entries_staged {
        StagingOutcome::EntriesRefused
    } else if !departures_staged {
        StagingOutcome::DeparturesMisaligned
    } else {
        StagingOutcome::Proceed
    }
}

/// Misaligned overlays fault both navigation and composition.
pub fn fault_misaligned(f: BackendFaults) -> (g: BackendFaults)
    ensures
        g == (BackendFaults { navigation_faulted: true, composition_faulted: true, ..f }),
{
    BackendFaults { navigation_faulted: true, composition_faulted: true, ..f }
}

/// Nothing is faulted and nothing is held.
pub open spec fn all_clear_spec(f: BackendFaults) -> bool {
    !f.navigation_faulted && !f.composition_faulted && !f.lifecycle_audit_faulted && !f.cleanup_blocked
        && !f.overlay_cleanup_blocked
}

/// Whether a provider removal may start: the provider is registered,
/// nothing is faulted or held, the shell prepared the removal with a
/// fallback transition, and the running screen is the provider's frame the
/// fallback leaves. Otherwise navigation is faulted and nothing starts.
pub open spec fn removal_may_start_spec(
    f: BackendFaults,
    registered: bool,
    prepared: bool,
    has_fallback: bool,
    aligned: bool,
) -> bool {
    registered && all_clear_spec(f) && prepared && has_fallback && aligned
}

/// Decides whether a provider removal starts; when it does not, the flags
/// come back with navigation faulted.
pub fn removal_start(f: BackendFaults, registered: bool, prepared: bool, has_fallback: bool, aligned: bool) -> (r: (
    bool,
    BackendFaults,
))
    ensures
        r.0 == removal_may_start_spec(f, registered, prepared, has_fallback, aligned),
        r.1 == (if r.0 { f } else { BackendFaults { navigation_faulted: true, ..f } }),
{
    let clear = !f.navigation_faulted && !f.composition_faulted && !f.lifecycle_audit_faulted && !f.cleanup_blocked
        && !f.overlay_cleanup_blocked;
    if registered && clear && prepared && has_fallback && aligned {
        (true, f)
    } else {
        (false, BackendFaults { navigation_faulted: true, ..f })
    }
}

/// A failed audit faults navigation and the lifecycle audit.
pub open spec fn audit_failed_spec(f: BackendFaults) -> BackendFaults {
    BackendFaults { navigation_faulted: true, lifecycle_audit_faulted: true, ..f }
}

/// What a finished provider-removal transition leads to.
#[derive(Clone, Copy, Debug, PartialEq, Eq, Structural)]
pub struct RemovalSettlement {
    pub faults: BackendFaults,
    pub overlays: OverlayFollowUp,
    /// The provider is detached and waits for finalization.
    pub detaching: bool,
}

/// The settlement of a provider removal. When the shell committed the
/// detach, exactly one queued callback action of the provider must have
/// been purged, else the audit fails; the provider is then detaching, and a
/// fault after the commit stops navigation. A rollback records the cleanup
/// result and faults navigation when anything is held, the audit failed or
/// the screen that is back cannot be drawn.
pub open spec fn removal_settlement_spec(
    f: BackendFaults,
    r: TransitionReport,
    purged_one: bool,
    renderable: bool,
) -> RemovalSettlement {
    let p = if shell_committed(r) && !purged_one { audit_failed_spec(f) } else { f };
    let g = record_cleanup_spec(p, r);
    match r {
        TransitionReport::Committed => RemovalSettlement {
            faults: g,
            overlays: OverlayFollowUp::Complete,
            detaching: true,
        },
        TransitionReport::FaultedAfterCommit { .. } => RemovalSettlement {
            faults: BackendFaults { navigation_faulted: true, ..g },
            overlays: OverlayFollowUp::Complete,
            detaching: true,
        },
        TransitionReport::RolledBack { cleanup_blocked, cleanup_audit_failed, .. } => RemovalSettlement {
            faults: BackendFaults {
                navigation_faulted: cleanup_blocked || cleanup_audit_failed || !renderable,
                ..g
            },
            overlays: OverlayFollowUp::Revert,
            detaching: false,
        },
    }
}

/// Settles a provider-removal transition; `purged_one` says whether the
/// purge of the provider's callback actions removed exactly one, and
/// `renderable` whether the screen that is up afterwards can be drawn.
pub fn settle_removal(f: BackendFaults, r: TransitionReport, purged_one: bool, renderable: bool) -> (s:
    RemovalSettlement)
    ensures
        s == removal_settlement_spec(f, r, purged_one, renderable),
        s.overlays == follow_up_spec(r),
        s.detaching == shell_committed(r),
{
    let committed = !matches!(r, TransitionReport::RolledBack { .. });
    let p = if committed && !purged_one {
        BackendFaults { navigation_faulted: true, lifecycle_audit_faulted: true, ..f }
    } else {
        f
    };
    let g = record_cleanup(p, r);
    match r {
        TransitionReport::Committed => RemovalSettlement { faults: g, overlays: OverlayFollowUp::Complete, detaching: true },
        TransitionReport::FaultedAfterCommit { .. } => RemovalSettlement {
            faults: BackendFaults { navigation_faulted: true, ..g },
            overlays: OverlayFollowUp::Complete,
            detaching: true,
        },
        TransitionReport::RolledBack { cleanup_blocked, cleanup_audit_failed, .. } => RemovalSettlement {
            faults: BackendFaults { navigation_faulted: cleanup_blocked || cleanup_audit_failed || !renderable, ..g },
            overlays: OverlayFollowUp::Revert,
            detaching: false,
        },
    }
}

/// What to do with a detaching provider.
#[derive(Clone, Copy, Debug, PartialEq, Eq, Structural)]
pub enum FinalizeStep {
    /// Something is held or faulted: try again later.
    Wait,
    /// The runtime still refers to the provider, the allocator's heap check
    /// failed, or the shell and the screen disagree.
    AuditFailed,
    /// Hand the verified audit to the shell.
    Finalize,
}

pub open spec fn finalize_step_spec(
    f: BackendFaults,
    runtime_references: bool,
    callback_references: bool,
    integrity_ok: bool,
    shell_aligned: bool,
) -> FinalizeStep {
    if f.cleanup_blocked || f.overlay_cleanup_blocked || f.composition_faulted || f.lifecycle_audit_faulted {
        FinalizeStep::Wait
    } else if runtime_references || callback_references || !integrity_ok || !shell_aligned {
        FinalizeStep::AuditFailed
    } else {
        FinalizeStep::Finalize
    }
}

/// Decides whether a detaching provider can be finalized.
pub fn finalize_step(
    f: BackendFaults,
    runtime_references: bool,
    callback_references: bool,
    integrity_ok: bool,
    shell_aligned: bool,
) -> (s: FinalizeStep)
    ensures
        s == finalize_step_spec(f, runtime_references, callback_references, integrity_ok, shell_aligned),
{
    if f.cleanup_blocked || f.overlay_cleanup_blocked || f.composition_faulted || f.lifecycle_audit_faulted {
        FinalizeStep::Wait
    } else if runtime_references || callback_references || !integrity_ok || !shell_aligned {
        FinalizeStep::AuditFailed
    } else {
        FinalizeStep::Finalize
    }
}

/// The flags after an audit: a failed audit, or a finalization the shell
/// refused, faults navigation and the audit; a finalized removal clears the
/// navigation fault.
pub fn after_audit(f: BackendFaults, finalized: bool) -> (g: BackendFaults)
    ensures
        g == (if finalized { BackendFaults { navigation_faulted: false, ..f } } else { audit_failed_spec(f) }),
{
    if finalized {
        BackendFaults { navigation_faulted: false, ..f }
    } else {
        BackendFaults { navigation_faulted: true, lifecycle_audit_faulted: true, ..f }
    }
}

/// Faults that stop the provider fixture whatever phase it is in.
pub open spec fn fixture_blocked_spec(f: BackendFaults) -> bool {
    f.composition_faulted || f.lifecycle_audit_faulted || f.cleanup_blocked || f.overlay_cleanup_blocked
}

/// Whether a fixture step may run: nothing blocks it, no provider is
/// detaching, and the running screen can be drawn.
pub fn fixture_step_allowed(f: BackendFaults, detaching: bool, renderable: bool) -> (r: bool)
    ensures
        r == (!fixture_blocked_spec(f) && !detaching && renderable),
{
    !(f.composition_faulted || f.lifecycle_audit_faulted || f.cleanup_blocked || f.overlay_cleanup_blocked)
        && !detaching && renderable
}

/// Whether a fixture step ended well: nothing blocks, navigation is not
/// faulted, and the running screen can be drawn.
pub fn fixture_step_succeeded(f: BackendFaults, renderable: bool) -> (r: bool)
    ensures
        r == (!fixture_blocked_spec(f) && !f.navigation_faulted && renderable),
{
    !(f.composition_faulted || f.lifecycle_audit_faulted || f.cleanup_blocked || f.overlay_cleanup_blocked)
        && !f.navigation_faulted && renderable
}

/// The surfaces the provider fixture walks through.
#[derive(Clone, Copy, Debug, PartialEq, Eq, Structural)]
pub struct FixtureSurfaces {
    pub home: SurfaceRef,
    pub launcher: SurfaceRef,
    pub provider_root: SurfaceRef,
    pub provider_overlay: SurfaceRef,
    pub confirm: SurfaceRef,
}

/// The next move of the provider fixture.
#[derive(Clone, Copy, Debug, PartialEq, Eq, Structural)]
pub enum FixtureRoute {
    /// From home, open the launcher.
    OpenLauncher,
    /// From the launcher, launch the provider's root surface.
    LaunchProvider,
    /// On the provider root with no modal: request the provider's modal.
    RequestProviderModal,
    /// Over the provider's modal: request the protected confirm modal.
    RequestConfirmModal,
    /// The confirm modal was requested by the registered provider and
    /// nothing is queued: stage the removal.
    StageRemoval,
    Fault,
}

/// The fixture's route: home, launcher, provider root, its modal, the
/// confirm modal, removal. `active_modal` is the live modal's surface and
/// the provider that requested it; `owner` the registered fixture provider.
pub open spec fn fixture_route_spec(
    s: FixtureSurfaces,
    current: SurfaceRef,
    active_modal: Option<(SurfaceRef, ProviderToken)>,
    owner: Option<ProviderToken>,
    queued_modals: usize,
) -> FixtureRoute {
    if current == s.home {
        FixtureRoute::OpenLauncher
    } else if current == s.launcher {
        FixtureRoute::LaunchProvider
    } else if current != s.provider_root {
        FixtureRoute::Fault
    } else {
        match active_modal {
            None => FixtureRoute::RequestProviderModal,
            Some((surface, requester)) => if surface == s.provider_overlay {
                FixtureRoute::RequestConfirmModal
            } else if surface == s.confirm {
                match owner {
                    Some(o) => if requester == o && queued_modals == 0 {
                        FixtureRoute::StageRemoval
                    } else {
                        FixtureRoute::Fault
                    },
                    None => FixtureRoute::Fault,
                }
            } else {
                FixtureRoute::Fault
            },
        }
    }
}

/// Decides the fixture's next move.
pub fn fixture_route(
    s: FixtureSurfaces,
    current: SurfaceRef,
    active_modal: Option<(SurfaceRef, ProviderToken)>,
    owner: Option<ProviderToken>,
    queued_modals: usize,
) -> (r: FixtureRoute)
    ensures
        r == fixture_route_spec(s, current, active_modal, owner, queued_modals),
{
    if current == s.home {
        return FixtureRoute::OpenLauncher;
    }
    if current == s.launcher {
        return FixtureRoute::LaunchProvider;
    }
    if current != s.provider_root {
        return FixtureRoute::Fault;
    }
    match active_modal {
        None => FixtureRoute::RequestProviderModal,
        Some((surface, requester)) => if surface == s.provider_overlay {
            FixtureRoute::RequestConfirmModal
        } else if surface == s.confirm {
            match owner {
                Some(o) => if requester == o && queued_modals == 0 {
                    FixtureRoute::StageRemoval
                } else {
                    FixtureRoute::Fault
                },
                None => FixtureRoute::Fault,
            }
        } else {
            FixtureRoute::Fault
        },
    }
}

/// What the checks before a staged removal found.
#[derive(Clone, Copy, Debug, PartialEq, Eq, Structural)]
pub enum RemovalProbe {
    Proceed,
    /// The re-requested provider modal is not the one queued modal, or
    /// another provider owns it.
    QueuedOwnerFault,
    /// The provider's remove button did not reach the callback queue as
    /// exactly one action.
    CallbackProbeFault,
}

/// The checks before a staged removal: the provider's modal, re-requested
/// over the confirm modal, is the only queued modal and is the provider's;
/// then a click on its remove button turns no queued action into exactly
/// one. Both faults fault navigation and composition.
pub open spec fn removal_probe_spec(
    provider_overlay: SurfaceRef,
    owner: ProviderToken,
    queued_modals: usize,
    queued_front: Option<(SurfaceRef, ProviderToken)>,
    actions_before: usize,
    clicked: bool,
    actions_after: usize,
) -> RemovalProbe {
    let front_ok = match queued_front {
        Some((surface, requester)) => surface == provider_overlay && requester == owner,
        None => false,
    };
    if queued_modals != 1 || !front_ok {
        RemovalProbe::QueuedOwnerFault
    } else if actions_before != 0 || !clicked || actions_after != 1 {
        RemovalProbe::CallbackProbeFault
    } else {
        RemovalProbe::Proceed
    }
}

/// Decides what the checks before a staged removal found.
pub fn removal_probe(
    provider_overlay: SurfaceRef,
    owner: ProviderToken,
    queued_modals: usize,
    queued_front: Option<(SurfaceRef, ProviderToken)>,
    actions_before: usize,
    clicked: bool,
    actions_after: usize,
) -> (r: RemovalProbe)
    ensures
        r == removal_probe_spec(provider_overlay, owner, queued_modals, queued_front, actions_before, clicked, actions_after),
{
    let front_ok = match queued_front {
        Some((surface, requester)) => surface == provider_overlay && requester == owner,
        None => false,
    };
    if queued_modals != 1 || !front_ok {
        RemovalProbe::QueuedOwnerFault
    } else if actions_before != 0 || !clicked || actions_after != 1 {
        RemovalProbe::CallbackProbeFault
    } else {
        RemovalProbe::Proceed
    }
}

/// No settlement of a transition (a navigation, an ambient recovery or a
/// provider removal) clears a composition fault or a failed lifecycle
/// audit, and none touches a held overlay.
pub proof fn lemma_settlements_keep_sticky_faults(
    f: BackendFaults,
    r: TransitionReport,
    purged_one: bool,
    renderable: bool,
)
    ensures
        ({
            let n = navigation_settlement_spec(f, r).faults;
            &&& f.composition_faulted ==> n.composition_faulted
            &&& f.lifecycle_audit_faulted ==> n.lifecycle_audit_faulted
            &&& n.overlay_cleanup_blocked == f.overlay_cleanup_blocked
        }),
        ({
            let v = recovery_settlement_spec(f, r, renderable).faults;
            &&& f.composition_faulted ==> v.composition_faulted
            &&& f.lifecycle_audit_faulted ==> v.lifecycle_audit_faulted
            &&& v.overlay_cleanup_blocked == f.overlay_cleanup_blocked
        }),
        ({
            let m = removal_settlement_spec(f, r, purged_one, renderable).faults;
            &&& f.composition_faulted ==> m.composition_faulted
            &&& f.lifecycle_audit_faulted ==> m.lifecycle_audit_faulted
            &&& m.overlay_cleanup_blocked == f.overlay_cleanup_blocked
        }),
{
}

/// A transition whose cleanup failed after the shell committed always stops
/// navigation, and so does one whose cleanup audit failed: whatever the
/// flags were before.
pub proof fn lemma_cleanup_faults_stop_navigation(f: BackendFaults, r: TransitionReport, purged_one: bool, renderable: bool)
    ensures
        r is FaultedAfterCommit ==> navigation_settlement_spec(f, r).faults.navigation_faulted,
        r is FaultedAfterCommit ==> removal_settlement_spec(f, r, purged_one, renderable).faults.navigation_faulted,
        (r matches TransitionReport::RolledBack { cleanup_audit_failed: true, .. })
            ==> navigation_settlement_spec(f, r).faults.navigation_faulted
            && removal_settlement_spec(f, r, purged_one, renderable).faults.navigation_faulted,
{
}

/// A rollback that brought the origin back, with nothing held and the
/// cleanup audit passed, leaves navigation running: the intent is simply
/// not carried out.
pub proof fn lemma_clean_rollback_keeps_navigating(f: BackendFaults, cause: RollbackCause)
    requires
        origin_restored_spec(cause),
    ensures
        ({
            let s = navigation_settlement_spec(
                f,
                TransitionReport::RolledBack { cleanup_blocked: false, cleanup_audit_failed: false, cause },
            );
            &&& !s.faults.navigation_faulted
            &&& !s.faults.cleanup_blocked
            &&& s.overlays == OverlayFollowUp::Revert
            &&& s.rollback == Some(RollbackSettlement::RestoreOrigin { navigation_faulted: false })
        }),
{
}

/// A provider is finalized only when nothing is faulted or held beyond
/// navigation and every audit passed.
pub proof fn lemma_finalize_needs_clean_audit(
    f: BackendFaults,
    runtime_references: bool,
    callback_references: bool,
    integrity_ok: bool,
    shell_aligned: bool,
)
    ensures
        finalize_step_spec(f, runtime_references, callback_references, integrity_ok, shell_aligned)
            == FinalizeStep::Finalize ==> {
            &&& !f.cleanup_blocked && !f.overlay_cleanup_blocked
            &&& !f.composition_faulted && !f.lifecycle_audit_faulted
            &&& !runtime_references && !callback_references && integrity_ok && shell_aligned
        },
{
}

/// How deleting a surface or an overlay went.
#[derive(Clone, Copy, Debug, PartialEq, Eq, Structural)]
pub enum DestroyResult {
    Destroyed,
    /// It is still live (an input or timer callback holds it): keep it
    /// held and try again later.
    StillLive,
    /// Its callback routes failed their audit.
    AuditFailed,
}

/// Some result in `rs` is `r`.
pub open spec fn any_result(rs: Seq<DestroyResult>, r: DestroyResult) -> bool {
    exists|i: int| 0 <= i < rs.len() && rs[i] == r
}

fn scan(rs: &[DestroyResult], r: DestroyResult) -> (b: bool)
    ensures
        b == any_result(rs@, r),
{
    let mut i: usize = 0;
    while i < rs.len()
        invariant
            i <= rs.len(),
            forall|j: int| 0 <= j < i ==> rs@[j] != r,
        decreases rs.len() - i,
    {
        if rs[i] == r {
            return true;
        }
        i = i + 1;
    }
    false
}

/// The flags after retrying the held overlays with `results`: the ones
/// still live stay held; a failed audit faults navigation and composition;
/// navigation recovers when no overlay or surface is held any more, the
/// running screen can be drawn and no fault stands.
pub open spec fn overlay_retry_spec(f: BackendFaults, results: Seq<DestroyResult>, renderable: bool) -> BackendFaults {
    let held = any_result(results, DestroyResult::StillLive);
    let audit = any_result(results, DestroyResult::AuditFailed);
    let g = BackendFaults {
        overlay_cleanup_blocked: held,
        navigation_faulted: f.navigation_faulted || audit,
        composition_faulted: f.composition_faulted || audit,
        ..f
    };
    if !held && !g.cleanup_blocked && renderable && !audit && !g.composition_faulted && !g.lifecycle_audit_faulted {
        BackendFaults { navigation_faulted: false, ..g }
    } else {
        g
    }
}

/// Settles a retry of the held overlays.
pub fn settle_overlay_retry(f: BackendFaults, results: &[DestroyResult], renderable: bool) -> (g: BackendFaults)
    ensures
        g == overlay_retry_spec(f, results@, renderable),
{
    let held = scan(results, DestroyResult::StillLive);
    let audit = scan(results, DestroyResult::AuditFailed);
    let g = BackendFaults {
        overlay_cleanup_blocked: held,
        navigation_faulted: f.navigation_faulted || audit,
        composition_faulted: f.composition_faulted || audit,
        ..f
    };
    if !held && !g.cleanup_blocked && renderable && !audit && !g.composition_faulted && !g.lifecycle_audit_faulted {
        BackendFaults { navigation_faulted: false, ..g }
    } else {
        g
    }
}

/// What retrying the held surface leads to.
#[derive(Clone, Copy, Debug, PartialEq, Eq, Structural)]
pub struct BlockedRetry {
    pub faults: BackendFaults,
    /// Recreate the ambient home screen; `navigation_faulted` then follows
    /// the recovery's result.
    pub recover_ambient: bool,
}

/// The settlement of a retry of the held surface. Once it is deleted,
/// navigation stays faulted under a standing fault, recovers when no
/// overlay is held and the running screen can be drawn, and otherwise asks
/// for an ambient recovery when a screen is running. A surface still live
/// stays held; a failed audit is recorded.
pub open spec fn blocked_retry_spec(f: BackendFaults, result: DestroyResult, renderable: bool, has_active: bool) -> BlockedRetry {
    match result {
        DestroyResult::Destroyed => {
            let g = BackendFaults { cleanup_blocked: false, ..f };
            if f.composition_faulted || f.lifecycle_audit_faulted {
                BlockedRetry { faults: BackendFaults { navigation_faulted: true, ..g }, recover_ambient: false }
            } else if !f.overlay_cleanup_blocked && renderable {
                BlockedRetry { faults: BackendFaults { navigation_faulted: false, ..g }, recover_ambient: false }
            } else if has_active {
                BlockedRetry { faults: g, recover_ambient: true }
            } else {
                BlockedRetry { faults: BackendFaults { navigation_faulted: true, ..g }, recover_ambient: false }
            }
        },
        DestroyResult::StillLive => BlockedRetry {
            faults: BackendFaults { cleanup_blocked: true, navigation_faulted: true, ..f },
            recover_ambient: false,
        },
        DestroyResult::AuditFailed => BlockedRetry {
            faults: BackendFaults {
                cleanup_blocked: false,
                navigation_faulted: true,
                lifecycle_audit_faulted: true,
                ..f
            },
            recover_ambient: false,
        },
    }
}

/// Settles a retry of the held surface.
pub fn settle_blocked_retry(f: BackendFaults, result: DestroyResult, renderable: bool, has_active: bool) -> (r: BlockedRetry)
    ensures
        r == blocked_retry_spec(f, result, renderable, has_active),
{
    match result {
        DestroyResult::Destroyed => {
            let g = BackendFaults { cleanup_blocked: false, ..f };
            if f.composition_faulted || f.lifecycle_audit_faulted {
                BlockedRetry { faults: BackendFaults { navigation_faulted: true, ..g }, recover_ambient: false }
            } else if !f.overlay_cleanup_blocked && renderable {
                BlockedRetry { faults: BackendFaults { navigation_faulted: false, ..g }, recover_ambient: false }
            } else if has_active {
                BlockedRetry { faults: g, recover_ambient: true }
            } else {
                BlockedRetry { faults: BackendFaults { navigation_faulted: true, ..g }, recover_ambient: false }
            }
        },
        DestroyResult::StillLive => BlockedRetry {
            faults: BackendFaults { cleanup_blocked: true, navigation_faulted: true, ..f },
            recover_ambient: false,
        },
        DestroyResult::AuditFailed => BlockedRetry {
            faults: BackendFaults {
                cleanup_blocked: false,
                navigation_faulted: true,
                lifecycle_audit_faulted: true,
                ..f
            },
            recover_ambient: false,
        },
    }
}

/// How finishing one departing overlay went.
#[derive(Clone, Copy, Debug, PartialEq, Eq, Structural)]
pub enum DepartureResult {
    /// The runtime holds no overlay for the token.
    Missing,
    Deleted(DestroyResult),
}

pub open spec fn any_departure(rs: Seq<DepartureResult>, r: DepartureResult) -> bool {
    exists|i: int| 0 <= i < rs.len() && rs[i] == r
}

/// The flags after finishing the departures: a missing overlay or a failed
/// audit faults navigation and composition; an overlay still live is held
/// and faults navigation.
pub open spec fn departures_spec(f: BackendFaults, rs: Seq<DepartureResult>) -> BackendFaults {
    let missing = any_departure(rs, DepartureResult::Missing);
    let audit = any_departure(rs, DepartureResult::Deleted(DestroyResult::AuditFailed));
    let live = any_departure(rs, DepartureResult::Deleted(DestroyResult::StillLive));
    BackendFaults {
        navigation_faulted: f.navigation_faulted || missing || audit || live,
        composition_faulted: f.composition_faulted || missing || audit,
        overlay_cleanup_blocked: f.overlay_cleanup_blocked || live,
        ..f
    }
}

fn scan_departures(rs: &[DepartureResult], r: DepartureResult) -> (b: bool)
    ensures
        b == any_departure(rs@, r),
{
    let mut i: usize = 0;
    while i < rs.len()
        invariant
            i <= rs.len(),
            forall|j: int| 0 <= j < i ==> rs@[j] != r,
        decreases rs.len() - i,
    {
        if rs[i] == r {
            return true;
        }
        i = i + 1;
    }
    false
}

/// Settles the departures of a committed plan.
pub fn settle_departures(f: BackendFaults, rs: &[DepartureResult]) -> (g: BackendFaults)
    ensures
        g == departures_spec(f, rs@),
{
    let missing = scan_departures(rs, DepartureResult::Missing);
    let audit = scan_departures(rs, DepartureResult::Deleted(DestroyResult::AuditFailed));
    let live = scan_departures(rs, DepartureResult::Deleted(DestroyResult::StillLive));
    BackendFaults {
        navigation_faulted: f.navigation_faulted || missing || audit || live,
        composition_faulted: f.composition_faulted || missing || audit,
        overlay_cleanup_blocked: f.overlay_cleanup_blocked || live,
        ..f
    }
}

/// The system layer stops capturing input once navigation runs, no modal
/// is live in the shell, and no modal overlay is up or held.
pub fn release_input_capture(f: BackendFaults, shell_modal_live: bool, modal_overlay_up: bool, modal_overlay_held: bool) -> (r: bool)
    ensures
        r == (!f.navigation_faulted && !shell_modal_live && !modal_overlay_up && !modal_overlay_held),
{
    !f.navigation_faulted && !shell_modal_live && !modal_overlay_up && !modal_overlay_held
}

/// A navigation fault is cleared by a retry only when, afterwards, nothing
/// is held, neither composition nor a lifecycle audit is faulted, and the
/// running screen can be drawn.
pub proof fn lemma_recovery_needs_a_clean_slate(
    f: BackendFaults,
    results: Seq<DestroyResult>,
    result: DestroyResult,
    renderable: bool,
    has_active: bool,
)
    requires
        f.navigation_faulted,
    ensures
        ({
            let g = overlay_retry_spec(f, results, renderable);
            !g.navigation_faulted ==> renderable && !g.overlay_cleanup_blocked && !g.cleanup_blocked
                && !g.composition_faulted && !g.lifecycle_audit_faulted
        }),
        ({
            let b = blocked_retry_spec(f, result, renderable, has_active);
            !b.faults.navigation_faulted ==> renderable && !b.faults.overlay_cleanup_blocked
                && !b.faults.cleanup_blocked && !b.faults.composition_faulted && !b.faults.lifecycle_audit_faulted
        }),
{
}

/// Where draining the navigation queue stands.
#[derive(Clone, Copy, Debug, PartialEq, Eq, Structural)]
pub struct DrainState {
    pub faults: BackendFaults,
    /// How the intent being carried out goes once its overlays are staged.
    pub pending: Option<IntentDisposition>,
}

/// What happened since the last step.
#[derive(Clone, Copy, Debug, PartialEq, Eq, Structural)]
pub enum DrainEvent {
    /// Draining starts.
    Begin,
    /// The queue is empty.
    QueueEmpty,
    /// An intent was taken: whether it is the registered fixture
    /// provider's request to go home (which runs the provider-removal
    /// fixture instead), whether a modal is live, whether the shell
    /// prepared it, the running instance and the instance it lands on.
    Popped {
        fixture_removal: bool,
        modal_live: bool,
        prepared: bool,
        active: Option<SurfaceInstanceToken>,
        destination_instance: SurfaceInstanceToken,
    },
    /// The plan's overlays were staged.
    Staged { entries_staged: bool, departures_staged: bool },
    /// The in-place commit went through, or not.
    CommittedInPlace { committed: bool },
    /// The screen transition finished.
    TransitionDone(TransitionReport),
    /// The ambient recovery a rollback asked for finished.
    Recovered(bool),
    /// The provider-removal fixture ran and left the backend with these
    /// flags.
    FixtureRemovalDone(BackendFaults),
}

/// What the backend does next.
#[derive(Clone, Copy, Debug, PartialEq, Eq, Structural)]
pub enum DrainNext {
    /// Drop every queued intent and stop: something is faulted or held.
    DropQueue,
    /// Take the next intent.
    PopNext,
    /// Stage the entering and departing overlays of the prepared plan.
    StageOverlays,
    /// Commit the plan without recreating the screen.
    CommitInPlace,
    /// Run the screen transition.
    RunTransition,
    /// Recreate the ambient home screen.
    RecoverAmbient,
    /// Run the provider-removal fixture.
    RunRemovalFixture,
    /// Stop draining.
    Stop,
}

/// The step's action: overlay work to do first, whether to mark the
/// destination's catalogue entry faulted, and what comes next.
#[derive(Clone, Copy, Debug, PartialEq, Eq, Structural)]
pub struct DrainAction {
    pub overlays: Option<OverlayFollowUp>,
    pub mark_destination_faulted: bool,
    pub next: DrainNext,
}

pub open spec fn plain(next: DrainNext) -> DrainAction {
    DrainAction { overlays: None, mark_destination_faulted: false, next }
}

/// One step of draining navigation. A blocked backend drops the queue; a
/// rejected intent is skipped; refused overlay entries skip the intent and
/// misaligned departures fault and stop; the staged plan is committed in
/// place, transitioned, or (with no running screen) reverted with a fault;
/// a finished transition settles as `navigation_settlement_spec` says; the
/// drain goes on while navigation is not faulted.
pub open spec fn drain_step_spec(s: DrainState, e: DrainEvent) -> (DrainState, DrainAction) {
    let f = s.faults;
    let idle = |g: BackendFaults| DrainState { faults: g, pending: None };
    let go_on = |g: BackendFaults| if g.navigation_faulted { DrainNext::Stop } else { DrainNext::PopNext };
    match e {
        DrainEvent::Begin => if f.navigation_faulted || f.composition_faulted || f.cleanup_blocked
            || f.overlay_cleanup_blocked {
            (idle(f), plain(DrainNext::DropQueue))
        } else {
            (idle(f), plain(DrainNext::PopNext))
        },
        DrainEvent::QueueEmpty => (idle(f), plain(DrainNext::Stop)),
        DrainEvent::Popped { fixture_removal, modal_live, prepared, active, destination_instance } => {
            let d = disposition_spec(modal_live, prepared, active, destination_instance);
            if fixture_removal {
                (idle(f), plain(DrainNext::RunRemovalFixture))
            } else if d == IntentDisposition::RejectModalActive || d == IntentDisposition::RejectPrepare {
                (idle(f), plain(DrainNext::PopNext))
            } else {
                (DrainState { faults: f, pending: Some(d) }, plain(DrainNext::StageOverlays))
            }
        },
        DrainEvent::Staged { entries_staged, departures_staged } => {
            match staging_spec(entries_staged, departures_staged) {
                StagingOutcome::EntriesRefused => (idle(f), plain(DrainNext::PopNext)),
                StagingOutcome::DeparturesMisaligned => (
                    idle(BackendFaults { navigation_faulted: true, composition_faulted: true, ..f }),
                    plain(DrainNext::Stop),
                ),
                StagingOutcome::Proceed => match s.pending {
                    Some(IntentDisposition::CommitInPlace) => (s, plain(DrainNext::CommitInPlace)),
                    Some(IntentDisposition::Transition) => (s, plain(DrainNext::RunTransition)),
                    _ => (
                        idle(BackendFaults { navigation_faulted: true, ..f }),
                        DrainAction {
                            overlays: Some(OverlayFollowUp::Revert),
                            mark_destination_faulted: false,
                            next: DrainNext::Stop,
                        },
                    ),
                },
            }
        },
        DrainEvent::CommittedInPlace { committed } => (
            idle(f),
            DrainAction {
                overlays: Some(if committed { OverlayFollowUp::Complete } else { OverlayFollowUp::Revert }),
                mark_destination_faulted: false,
                next: go_on(f),
            },
        ),
        DrainEvent::TransitionDone(r) => {
            let n = navigation_settlement_spec(f, r);
            (
                idle(n.faults),
                DrainAction {
                    overlays: Some(n.overlays),
                    mark_destination_faulted: n.mark_destination_faulted,
                    next: if n.rollback == Some(RollbackSettlement::RecoverAmbient) {
                        DrainNext::RecoverAmbient
                    } else {
                        go_on(n.faults)
                    },
                },
            )
        },
        DrainEvent::Recovered(ok) => {
            let g = BackendFaults { navigation_faulted: !ok, ..f };
            (idle(g), plain(go_on(g)))
        },
        DrainEvent::FixtureRemovalDone(g) => (idle(g), plain(go_on(g))),
    }
}

/// Takes one step of draining navigation.
pub fn drain_step(s: DrainState, e: DrainEvent) -> (r: (DrainState, DrainAction))
    ensures
        r == drain_step_spec(s, e),
{
    let f = s.faults;
    let idle = DrainState { faults: f, pending: None };
    match e {
        DrainEvent::Begin => {
            let blocked = f.navigation_faulted || f.composition_faulted || f.cleanup_blocked || f.overlay_cleanup_blocked;
            let next = if blocked { DrainNext::DropQueue } else { DrainNext::PopNext };
            (idle, DrainAction { overlays: None, mark_destination_faulted: false, next })
        },
        DrainEvent::QueueEmpty => (idle, DrainAction { overlays: None, mark_destination_faulted: false, next: DrainNext::Stop }),
        DrainEvent::Popped { fixture_removal, modal_live, prepared, active, destination_instance } => {
            if fixture_removal {
                return (
                    idle,
                    DrainAction { overlays: None, mark_destination_faulted: false, next: DrainNext::RunRemovalFixture },
                );
            }
            let d = intent_disposition(modal_live, prepared, active, destination_instance);
            match d {
                IntentDisposition::RejectModalActive | IntentDisposition::RejectPrepare => (
                    idle,
                    DrainAction { overlays: None, mark_destination_faulted: false, next: DrainNext::PopNext },
                ),
                _ => (
                    DrainState { faults: f, pending: Some(d) },
                    DrainAction { overlays: None, mark_destination_faulted: false, next: DrainNext::StageOverlays },
                ),
            }
        },
        DrainEvent::Staged { entries_staged, departures_staged } => match staging_outcome(entries_staged, departures_staged) {
            StagingOutcome::EntriesRefused => (
                idle,
                DrainAction { overlays: None, mark_destination_faulted: false, next: DrainNext::PopNext },
            ),
            StagingOutcome::DeparturesMisaligned => (
                DrainState { faults: fault_misaligned(f), pending: None },
                DrainAction { overlays: None, mark_destination_faulted: false, next: DrainNext::Stop },
            ),
            StagingOutcome::Proceed => match s.pending {
                Some(IntentDisposition::CommitInPlace) => (
                    s,
                    DrainAction { overlays: None, mark_destination_faulted: false, next: DrainNext::CommitInPlace },
                ),
                Some(IntentDisposition::Transition) => (
                    s,
                    DrainAction { overlays: None, mark_destination_faulted: false, next: DrainNext::RunTransition },
                ),
                _ => (
                    DrainState { faults: BackendFaults { navigation_faulted: true, ..f }, pending: None },
                    DrainAction {
                        overlays: Some(OverlayFollowUp::Revert),
                        mark_destination_faulted: false,
                        next: DrainNext::Stop,
                    },
                ),
            },
        },
        DrainEvent::CommittedInPlace { committed } => {
            let overlays = if committed { OverlayFollowUp::Complete } else { OverlayFollowUp::Revert };
            let next = if f.navigation_faulted { DrainNext::Stop } else { DrainNext::PopNext };
            (idle, DrainAction { overlays: Some(overlays), mark_destination_faulted: false, next })
        },
        DrainEvent::TransitionDone(r) => {
            let n = settle_navigation(f, r);
            let next = if n.rollback == Some(RollbackSettlement::RecoverAmbient) {
                DrainNext::RecoverAmbient
            } else if n.faults.navigation_faulted {
                DrainNext::Stop
            } else {
                DrainNext::PopNext
            };
            (
                DrainState { faults: n.faults, pending: None },
                DrainAction { overlays: Some(n.overlays), mark_destination_faulted: n.mark_destination_faulted, next },
            )
        },
        DrainEvent::Recovered(ok) => {
            let g = after_ambient_recovery(f, ok);
            let next = if g.navigation_faulted { DrainNext::Stop } else { DrainNext::PopNext };
            (DrainState { faults: g, pending: None }, DrainAction { overlays: None, mark_destination_faulted: false, next })
        },
        DrainEvent::FixtureRemovalDone(g) => {
            let next = if g.navigation_faulted { DrainNext::Stop } else { DrainNext::PopNext };
            (DrainState { faults: g, pending: None }, DrainAction { overlays: None, mark_destination_faulted: false, next })
        },
    }
}

/// Whether a popped intent is the registered fixture provider's request to
/// go home: such a request runs the provider-removal fixture.
pub fn is_fixture_removal_request(intent: OwnedNavIntent, registered: Option<ProviderToken>) -> (r: bool)
    ensures
        r == (intent.intent == NavIntent::Home && registered is Some && intent.source.surface.owner
            == registered->0),
{
    match registered {
        Some(owner) => intent.intent == NavIntent::Home && intent.source.surface.owner == owner,
        None => false,
    }
}

/// Draining never goes on past a navigation fault: from a drain in which
/// navigation runs, a step that leaves it faulted stops, unless a rollback
/// first asks for the ambient screen to be recovered. And a backend with
/// anything faulted or held drops the queue without carrying out any of it.
pub proof fn lemma_drain_stops_on_fault(s: DrainState, e: DrainEvent)
    ensures
        ({
            let (t, a) = drain_step_spec(s, e);
            &&& (!s.faults.navigation_faulted && !(e is Begin) && t.faults.navigation_faulted) ==> (a.next
                == DrainNext::Stop || a.next == DrainNext::RecoverAmbient)
            &&& (e is Begin && (s.faults.navigation_faulted || s.faults.composition_faulted || s.faults.cleanup_blocked
                || s.faults.overlay_cleanup_blocked)) ==> a.next == DrainNext::DropQueue
        }),
{
}

} // verus!
