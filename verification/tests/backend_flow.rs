use meditamer::shell::model::{ProviderRemovalError, ProviderRuntimeAudit, ShellInitError, ShellModel};
use meditamer::shell::registry::RegistrationError;
use meditamer::shell::types::{
    InstanceGeneration, NavIntent, OwnedNavIntent, ProviderGeneration, ProviderId, ProviderToken, RefreshHint,
    SurfaceCapabilities,
    SurfaceId, SurfaceInstanceToken, SurfaceRef, SurfaceRole, SurfaceSpec,
};
use meditamer::ui::navigation_flow::{
    intent_disposition, navigation_blocked, settle_rolled_back, IntentDisposition, RollbackSettlement,
};
use meditamer::ui::settlement::{
    after_ambient_recovery, after_audit, fault_misaligned, finalize_step, fixture_route, fixture_step_allowed,
    fixture_step_succeeded, release_input_capture, removal_probe, removal_start, settle_blocked_retry,
    settle_departures, settle_navigation, settle_overlay_retry, settle_recovery, settle_removal, staging_outcome,
    drain_step, is_fixture_removal_request, BackendFaults, DepartureResult, DestroyResult, DrainAction, DrainEvent, DrainNext, DrainState,
    FinalizeStep, FixtureRoute, FixtureSurfaces, OverlayFollowUp,
    RemovalProbe, RollbackCause, StagingOutcome, TransitionReport,
};

type Shell = ShellModel<4, 8, 4, 2, 2, 2>;

fn token(generation: u32) -> SurfaceInstanceToken {
    let owner = ProviderToken { id: ProviderId(1), generation: ProviderGeneration(1) };
    SurfaceInstanceToken::issued(SurfaceRef::new(owner, 5), InstanceGeneration(generation))
}

fn home_specs() -> [SurfaceSpec; 2] {
    [
        SurfaceSpec::new(1, SurfaceRole::Ambient, SurfaceCapabilities::ambient(), RefreshHint::Micro),
        SurfaceSpec::new(2, SurfaceRole::Launcher, SurfaceCapabilities::none(), RefreshHint::Content),
    ]
}

#[test]
fn navigation_drain_refuses_while_anything_is_stuck() {
    assert!(!navigation_blocked(false, false, false, false));
    assert!(navigation_blocked(true, false, false, false));
    assert!(navigation_blocked(false, false, false, true));
}

#[test]
fn intents_commit_in_place_only_for_the_running_instance() {
    assert_eq!(intent_disposition(true, true, Some(token(1)), token(1)), IntentDisposition::RejectModalActive);
    assert_eq!(intent_disposition(false, false, Some(token(1)), token(1)), IntentDisposition::RejectPrepare);
    assert_eq!(intent_disposition(false, true, Some(token(1)), token(1)), IntentDisposition::CommitInPlace);
    assert_eq!(intent_disposition(false, true, Some(token(1)), token(2)), IntentDisposition::Transition);
    assert_eq!(intent_disposition(false, true, None, token(2)), IntentDisposition::MissingActiveFault);
}

#[test]
fn rollbacks_restore_recover_or_fault() {
    assert_eq!(settle_rolled_back(true, false, false), RollbackSettlement::RestoreOrigin { navigation_faulted: false });
    assert_eq!(settle_rolled_back(true, true, false), RollbackSettlement::RestoreOrigin { navigation_faulted: true });
    assert_eq!(settle_rolled_back(false, false, false), RollbackSettlement::RecoverAmbient);
    assert_eq!(settle_rolled_back(false, false, true), RollbackSettlement::Fault);
}

#[test]
fn the_shell_needs_an_ambient_home() {
    assert_eq!(Shell::new(ProviderId(1), &home_specs(), SurfaceId(9)).err(), Some(ShellInitError::MissingHome(SurfaceId(9))));
    assert_eq!(Shell::new(ProviderId(1), &home_specs(), SurfaceId(2)).err(), Some(ShellInitError::InvalidHome(SurfaceId(2))));
    let duplicate = [home_specs()[0], home_specs()[0]];
    assert_eq!(
        Shell::new(ProviderId(1), &duplicate, SurfaceId(1)).err(),
        Some(ShellInitError::Registration(RegistrationError::DuplicateSurfaceIdInBatch(SurfaceId(1))))
    );
}

#[test]
fn removal_refuses_the_base_provider_unknown_tokens_and_foreign_audits() {
    let mut shell = Shell::new(ProviderId(1), &home_specs(), SurfaceId(1)).unwrap();
    let base = shell.active().surface.owner;
    assert!(matches!(shell.prepare_provider_removal(base), Err(ProviderRemovalError::BaseProvider)));
    let ghost = ProviderToken { id: ProviderId(7), generation: ProviderGeneration(9) };
    assert!(matches!(shell.prepare_provider_removal(ghost), Err(ProviderRemovalError::UnknownProvider(t)) if t == ghost));
    let app = shell
        .register_provider(ProviderId(7), &[SurfaceSpec::new(70, SurfaceRole::AppRoot, SurfaceCapabilities::launchable(), RefreshHint::Content)])
        .unwrap();
    assert_eq!(app.generation, ProviderGeneration(2));
    let plan = shell.prepare_provider_removal(app).unwrap();
    let pending = shell.commit_provider_detach(plan).unwrap();
    assert_eq!(
        shell.finalize_provider_removal(&pending, ProviderRuntimeAudit::verified(base)),
        Err(ProviderRemovalError::RuntimeAuditMismatch)
    );
    let purge = shell.finalize_provider_removal(&pending, ProviderRuntimeAudit::verified(app)).unwrap();
    assert_eq!(purge.definitions, 1);
    assert_eq!(
        shell.finalize_provider_removal(&pending, ProviderRuntimeAudit::verified(app)),
        Err(ProviderRemovalError::NoPendingRemoval)
    );
}

#[test]
fn a_stale_plan_is_refused_and_changes_nothing() {
    let mut shell = Shell::new(ProviderId(1), &home_specs(), SurfaceId(1)).unwrap();
    let base = shell.active().surface.owner;
    let stale = shell.prepare_intent(NavIntent::OpenLauncher(SurfaceRef::new(base, 2))).unwrap();
    let fresh = shell.prepare_intent(NavIntent::OpenLauncher(SurfaceRef::new(base, 2))).unwrap();
    shell.commit_navigation(fresh).unwrap();
    let active = shell.active_instance();
    assert!(shell.commit_navigation(stale).is_err());
    assert_eq!(shell.active_instance(), active);
    assert_eq!(shell.navigation_len(), 2);
}

fn clear() -> BackendFaults {
    BackendFaults {
        navigation_faulted: false,
        composition_faulted: false,
        lifecycle_audit_faulted: false,
        cleanup_blocked: false,
        overlay_cleanup_blocked: false,
    }
}

fn rolled_back(cleanup_blocked: bool, cleanup_audit_failed: bool, cause: RollbackCause) -> TransitionReport {
    TransitionReport::RolledBack { cleanup_blocked, cleanup_audit_failed, cause }
}

#[test]
fn committed_navigation_completes_overlays_and_keeps_flags() {
    let s = settle_navigation(clear(), TransitionReport::Committed);
    assert_eq!(s.faults, clear());
    assert_eq!(s.overlays, OverlayFollowUp::Complete);
    assert!(!s.mark_destination_faulted);
    assert_eq!(s.rollback, None);
}

#[test]
fn failed_entry_marks_the_destination_and_restores_the_origin() {
    let s = settle_navigation(clear(), rolled_back(false, false, RollbackCause::Entry));
    assert!(s.mark_destination_faulted);
    assert_eq!(s.overlays, OverlayFollowUp::Revert);
    assert_eq!(s.rollback, Some(RollbackSettlement::RestoreOrigin { navigation_faulted: false }));
    assert!(!s.faults.navigation_faulted);
}

#[test]
fn lost_origin_asks_for_ambient_recovery_or_faults() {
    let lost = RollbackCause::AfterEntry { origin_restored: false };
    let s = settle_navigation(clear(), rolled_back(false, false, lost));
    assert_eq!(s.rollback, Some(RollbackSettlement::RecoverAmbient));
    assert!(!s.mark_destination_faulted);
    assert!(after_ambient_recovery(s.faults, false).navigation_faulted);
    assert!(!after_ambient_recovery(s.faults, true).navigation_faulted);
    let stuck = settle_navigation(clear(), rolled_back(true, false, lost));
    assert_eq!(stuck.rollback, Some(RollbackSettlement::Fault));
    assert!(stuck.faults.navigation_faulted);
    assert!(stuck.faults.cleanup_blocked);
}

#[test]
fn fault_after_commit_stops_navigation_but_keeps_the_commit() {
    let s = settle_navigation(clear(), TransitionReport::FaultedAfterCommit { cleanup_blocked: true, cleanup_audit_failed: true });
    assert!(s.faults.navigation_faulted);
    assert!(s.faults.cleanup_blocked);
    assert!(s.faults.lifecycle_audit_faulted);
    assert_eq!(s.overlays, OverlayFollowUp::Complete);
}

#[test]
fn sticky_faults_survive_a_clean_commit_and_rollback() {
    let mut f = clear();
    f.composition_faulted = true;
    f.lifecycle_audit_faulted = true;
    f.overlay_cleanup_blocked = true;
    for r in [
        TransitionReport::Committed,
        rolled_back(false, false, RollbackCause::Entry),
        TransitionReport::FaultedAfterCommit { cleanup_blocked: false, cleanup_audit_failed: false },
    ] {
        let n = settle_navigation(f, r).faults;
        let v = settle_recovery(f, r, true).faults;
        let m = settle_removal(f, r, true, true).faults;
        for g in [n, v, m] {
            assert!(g.composition_faulted && g.lifecycle_audit_faulted && g.overlay_cleanup_blocked);
        }
    }
}

#[test]
fn recovery_recovers_only_on_a_drawable_commit() {
    let mut held = clear();
    held.cleanup_blocked = true;
    let s = settle_recovery(held, TransitionReport::Committed, true);
    assert!(s.recovered);
    assert!(!s.faults.cleanup_blocked);
    assert!(!settle_recovery(held, TransitionReport::Committed, false).recovered);
    let r = settle_recovery(clear(), rolled_back(true, true, RollbackCause::Entry), true);
    assert!(!r.recovered);
    assert!(r.faults.cleanup_blocked && r.faults.lifecycle_audit_faulted);
    assert_eq!(r.overlays, OverlayFollowUp::Revert);
}

#[test]
fn staging_refuses_entries_before_checking_departures() {
    assert_eq!(staging_outcome(false, false), StagingOutcome::EntriesRefused);
    assert_eq!(staging_outcome(true, false), StagingOutcome::DeparturesMisaligned);
    assert_eq!(staging_outcome(true, true), StagingOutcome::Proceed);
    let g = fault_misaligned(clear());
    assert!(g.navigation_faulted && g.composition_faulted && !g.lifecycle_audit_faulted);
}

#[test]
fn provider_removal_starts_only_when_everything_lines_up() {
    assert_eq!(removal_start(clear(), true, true, true, true), (true, clear()));
    let (go, f) = removal_start(clear(), true, true, false, true);
    assert!(!go && f.navigation_faulted);
    let mut held = clear();
    held.overlay_cleanup_blocked = true;
    assert!(!removal_start(held, true, true, true, true).0);
    assert!(!removal_start(clear(), false, true, true, true).0);
}

#[test]
fn provider_removal_settles_and_audits_the_callback_purge() {
    let ok = settle_removal(clear(), TransitionReport::Committed, true, true);
    assert!(ok.detaching);
    assert_eq!(ok.faults, clear());
    let bad = settle_removal(clear(), TransitionReport::Committed, false, true);
    assert!(bad.detaching && bad.faults.navigation_faulted && bad.faults.lifecycle_audit_faulted);
    let back = settle_removal(clear(), rolled_back(false, false, RollbackCause::AfterEntry { origin_restored: true }), false, true);
    assert!(!back.detaching);
    assert_eq!(back.faults, clear());
    assert_eq!(back.overlays, OverlayFollowUp::Revert);
    let undrawable = settle_removal(clear(), rolled_back(false, false, RollbackCause::Entry), true, false);
    assert!(undrawable.faults.navigation_faulted);
    let after = settle_removal(clear(), TransitionReport::FaultedAfterCommit { cleanup_blocked: false, cleanup_audit_failed: false }, true, true);
    assert!(after.detaching && after.faults.navigation_faulted);
}

#[test]
fn finalization_waits_audits_then_finalizes() {
    let mut held = clear();
    held.cleanup_blocked = true;
    assert_eq!(finalize_step(held, false, false, true, true), FinalizeStep::Wait);
    assert_eq!(finalize_step(clear(), true, false, true, true), FinalizeStep::AuditFailed);
    assert_eq!(finalize_step(clear(), false, false, false, true), FinalizeStep::AuditFailed);
    assert_eq!(finalize_step(clear(), false, false, true, true), FinalizeStep::Finalize);
    let mut faulted = clear();
    faulted.navigation_faulted = true;
    assert_eq!(finalize_step(faulted, false, false, true, true), FinalizeStep::Finalize);
    assert!(!after_audit(faulted, true).navigation_faulted);
    let failed = after_audit(clear(), false);
    assert!(failed.navigation_faulted && failed.lifecycle_audit_faulted);
}

#[test]
fn fixture_steps_are_guarded_by_the_flags() {
    assert!(fixture_step_allowed(clear(), false, true));
    assert!(!fixture_step_allowed(clear(), true, true));
    assert!(!fixture_step_allowed(clear(), false, false));
    let mut faulted = clear();
    faulted.navigation_faulted = true;
    assert!(fixture_step_allowed(faulted, false, true));
    assert!(!fixture_step_succeeded(faulted, true));
    assert!(fixture_step_succeeded(clear(), true));
}

fn fixture_surfaces() -> FixtureSurfaces {
    let base = ProviderToken { id: ProviderId(0), generation: ProviderGeneration(1) };
    let fixture = ProviderToken { id: ProviderId(9), generation: ProviderGeneration(2) };
    FixtureSurfaces {
        home: SurfaceRef::new(base, 1),
        launcher: SurfaceRef::new(base, 2),
        provider_root: SurfaceRef::new(fixture, 10),
        provider_overlay: SurfaceRef::new(fixture, 11),
        confirm: SurfaceRef::new(base, 3),
    }
}

#[test]
fn fixture_walks_home_launcher_provider_modals_then_removal() {
    let s = fixture_surfaces();
    let owner = s.provider_root.owner;
    assert_eq!(fixture_route(s, s.home, None, Some(owner), 0), FixtureRoute::OpenLauncher);
    assert_eq!(fixture_route(s, s.launcher, None, Some(owner), 0), FixtureRoute::LaunchProvider);
    assert_eq!(fixture_route(s, s.confirm, None, Some(owner), 0), FixtureRoute::Fault);
    assert_eq!(fixture_route(s, s.provider_root, None, Some(owner), 0), FixtureRoute::RequestProviderModal);
    assert_eq!(
        fixture_route(s, s.provider_root, Some((s.provider_overlay, owner)), Some(owner), 0),
        FixtureRoute::RequestConfirmModal
    );
    assert_eq!(fixture_route(s, s.provider_root, Some((s.confirm, owner)), Some(owner), 0), FixtureRoute::StageRemoval);
    assert_eq!(fixture_route(s, s.provider_root, Some((s.confirm, owner)), Some(owner), 1), FixtureRoute::Fault);
    assert_eq!(fixture_route(s, s.provider_root, Some((s.confirm, s.home.owner)), Some(owner), 0), FixtureRoute::Fault);
    assert_eq!(fixture_route(s, s.provider_root, Some((s.confirm, owner)), None, 0), FixtureRoute::Fault);
    assert_eq!(fixture_route(s, s.provider_root, Some((s.home, owner)), Some(owner), 0), FixtureRoute::Fault);
}

#[test]
fn staged_removal_checks_the_queue_then_the_callback_probe() {
    let s = fixture_surfaces();
    let owner = s.provider_root.owner;
    let front = Some((s.provider_overlay, owner));
    assert_eq!(removal_probe(s.provider_overlay, owner, 1, front, 0, true, 1), RemovalProbe::Proceed);
    assert_eq!(removal_probe(s.provider_overlay, owner, 2, front, 0, true, 1), RemovalProbe::QueuedOwnerFault);
    assert_eq!(removal_probe(s.provider_overlay, owner, 1, Some((s.confirm, owner)), 0, true, 1), RemovalProbe::QueuedOwnerFault);
    assert_eq!(removal_probe(s.provider_overlay, owner, 1, None, 0, true, 1), RemovalProbe::QueuedOwnerFault);
    assert_eq!(removal_probe(s.provider_overlay, owner, 1, front, 1, true, 2), RemovalProbe::CallbackProbeFault);
    assert_eq!(removal_probe(s.provider_overlay, owner, 1, front, 0, false, 0), RemovalProbe::CallbackProbeFault);
    assert_eq!(removal_probe(s.provider_overlay, owner, 1, front, 0, true, 2), RemovalProbe::CallbackProbeFault);
}

#[test]
fn overlay_retry_recovers_navigation_only_from_a_clean_slate() {
    let mut held = clear();
    held.navigation_faulted = true;
    held.overlay_cleanup_blocked = true;
    let cleared = settle_overlay_retry(held, &[DestroyResult::Destroyed, DestroyResult::Destroyed], true);
    assert_eq!(cleared, clear());
    let still = settle_overlay_retry(held, &[DestroyResult::Destroyed, DestroyResult::StillLive], true);
    assert!(still.navigation_faulted && still.overlay_cleanup_blocked);
    let undrawable = settle_overlay_retry(held, &[DestroyResult::Destroyed], false);
    assert!(undrawable.navigation_faulted && !undrawable.overlay_cleanup_blocked);
    let audit = settle_overlay_retry(held, &[DestroyResult::AuditFailed], true);
    assert!(audit.navigation_faulted && audit.composition_faulted && !audit.overlay_cleanup_blocked);
}

#[test]
fn blocked_surface_retry_recovers_asks_for_ambient_or_stays_held() {
    let mut held = clear();
    held.navigation_faulted = true;
    held.cleanup_blocked = true;
    let ok = settle_blocked_retry(held, DestroyResult::Destroyed, true, true);
    assert_eq!(ok.faults, clear());
    assert!(!ok.recover_ambient);
    let undrawable = settle_blocked_retry(held, DestroyResult::Destroyed, false, true);
    assert!(undrawable.recover_ambient);
    assert!(!undrawable.faults.cleanup_blocked);
    assert!(settle_blocked_retry(held, DestroyResult::Destroyed, false, false).faults.navigation_faulted);
    let mut sticky = held;
    sticky.composition_faulted = true;
    assert!(settle_blocked_retry(sticky, DestroyResult::Destroyed, true, true).faults.navigation_faulted);
    let live = settle_blocked_retry(held, DestroyResult::StillLive, true, true);
    assert!(live.faults.cleanup_blocked && live.faults.navigation_faulted);
    let audit = settle_blocked_retry(held, DestroyResult::AuditFailed, true, true);
    assert!(audit.faults.lifecycle_audit_faulted && !audit.faults.cleanup_blocked && audit.faults.navigation_faulted);
}

#[test]
fn departures_fault_on_missing_live_or_audited_overlays() {
    assert_eq!(settle_departures(clear(), &[DepartureResult::Deleted(DestroyResult::Destroyed)]), clear());
    let missing = settle_departures(clear(), &[DepartureResult::Missing]);
    assert!(missing.navigation_faulted && missing.composition_faulted && !missing.overlay_cleanup_blocked);
    let live = settle_departures(clear(), &[DepartureResult::Deleted(DestroyResult::Destroyed), DepartureResult::Deleted(DestroyResult::StillLive)]);
    assert!(live.navigation_faulted && live.overlay_cleanup_blocked && !live.composition_faulted);
    assert!(release_input_capture(clear(), false, false, false));
    assert!(!release_input_capture(live, false, false, false));
    assert!(!release_input_capture(clear(), true, false, false));
    assert!(!release_input_capture(clear(), false, false, true));
}

fn drain(faults: BackendFaults, pending: Option<IntentDisposition>) -> DrainState {
    DrainState { faults, pending }
}

fn act(next: DrainNext) -> DrainAction {
    DrainAction { overlays: None, mark_destination_faulted: false, next }
}

#[test]
fn draining_drops_the_queue_when_blocked_and_otherwise_pops() {
    let mut held = clear();
    held.cleanup_blocked = true;
    assert_eq!(drain_step(drain(held, None), DrainEvent::Begin).1, act(DrainNext::DropQueue));
    assert_eq!(drain_step(drain(clear(), None), DrainEvent::Begin).1, act(DrainNext::PopNext));
    assert_eq!(drain_step(drain(clear(), None), DrainEvent::QueueEmpty).1, act(DrainNext::Stop));
}

#[test]
fn a_popped_intent_is_skipped_staged_then_committed_or_transitioned() {
    let popped = |modal_live, prepared, active| DrainEvent::Popped {
        fixture_removal: false,
        modal_live,
        prepared,
        active,
        destination_instance: token(1),
    };
    assert_eq!(drain_step(drain(clear(), None), popped(true, true, Some(token(1)))).1, act(DrainNext::PopNext));
    assert_eq!(drain_step(drain(clear(), None), popped(false, false, Some(token(1)))).1, act(DrainNext::PopNext));
    let (s, a) = drain_step(drain(clear(), None), popped(false, true, Some(token(1))));
    assert_eq!(a, act(DrainNext::StageOverlays));
    assert_eq!(s.pending, Some(IntentDisposition::CommitInPlace));
    let staged = DrainEvent::Staged { entries_staged: true, departures_staged: true };
    assert_eq!(drain_step(s, staged).1, act(DrainNext::CommitInPlace));
    let (t, _) = drain_step(drain(clear(), None), popped(false, true, Some(token(2))));
    assert_eq!(drain_step(t, staged).1, act(DrainNext::RunTransition));
    let (m, _) = drain_step(drain(clear(), None), popped(false, true, None));
    let (after, a) = drain_step(m, staged);
    assert_eq!(a, DrainAction { overlays: Some(OverlayFollowUp::Revert), mark_destination_faulted: false, next: DrainNext::Stop });
    assert!(after.faults.navigation_faulted);
    assert_eq!(drain_step(s, DrainEvent::Staged { entries_staged: false, departures_staged: false }).1, act(DrainNext::PopNext));
    let (bad, a) = drain_step(s, DrainEvent::Staged { entries_staged: true, departures_staged: false });
    assert_eq!(a, act(DrainNext::Stop));
    assert!(bad.faults.navigation_faulted && bad.faults.composition_faulted);
}

#[test]
fn finished_transitions_settle_then_go_on_recover_or_stop() {
    let pending = drain(clear(), Some(IntentDisposition::Transition));
    let (s, a) = drain_step(pending, DrainEvent::TransitionDone(TransitionReport::Committed));
    assert_eq!(a, DrainAction { overlays: Some(OverlayFollowUp::Complete), mark_destination_faulted: false, next: DrainNext::PopNext });
    assert_eq!(s.pending, None);
    let lost = rolled_back(false, false, RollbackCause::AfterEntry { origin_restored: false });
    assert_eq!(drain_step(pending, DrainEvent::TransitionDone(lost)).1.next, DrainNext::RecoverAmbient);
    assert_eq!(drain_step(pending, DrainEvent::Recovered(true)).1, act(DrainNext::PopNext));
    let (f, a) = drain_step(pending, DrainEvent::Recovered(false));
    assert_eq!(a, act(DrainNext::Stop));
    assert!(f.faults.navigation_faulted);
    let entry = rolled_back(false, false, RollbackCause::Entry);
    let (_, a) = drain_step(pending, DrainEvent::TransitionDone(entry));
    assert!(a.mark_destination_faulted);
    assert_eq!(a.next, DrainNext::PopNext);
    let after_commit = TransitionReport::FaultedAfterCommit { cleanup_blocked: true, cleanup_audit_failed: false };
    assert_eq!(drain_step(pending, DrainEvent::TransitionDone(after_commit)).1.next, DrainNext::Stop);
    assert_eq!(
        drain_step(drain(clear(), None), DrainEvent::CommittedInPlace { committed: false }).1,
        DrainAction { overlays: Some(OverlayFollowUp::Revert), mark_destination_faulted: false, next: DrainNext::PopNext }
    );
}

#[test]
fn the_fixture_providers_home_request_runs_the_removal_fixture() {
    let fixture = ProviderToken { id: ProviderId(9), generation: ProviderGeneration(3) };
    let source = SurfaceInstanceToken::issued(SurfaceRef::new(fixture, 10), InstanceGeneration(1));
    let home = OwnedNavIntent { source, intent: NavIntent::Home };
    assert!(is_fixture_removal_request(home, Some(fixture)));
    assert!(!is_fixture_removal_request(home, None));
    assert!(!is_fixture_removal_request(OwnedNavIntent { source: token(1), intent: NavIntent::Home }, Some(fixture)));
    assert!(!is_fixture_removal_request(OwnedNavIntent { source, intent: NavIntent::Back }, Some(fixture)));
    let popped = DrainEvent::Popped {
        fixture_removal: true,
        modal_live: true,
        prepared: false,
        active: None,
        destination_instance: token(1),
    };
    assert_eq!(drain_step(drain(clear(), None), popped).1, act(DrainNext::RunRemovalFixture));
    assert_eq!(drain_step(drain(clear(), None), DrainEvent::FixtureRemovalDone(clear())).1, act(DrainNext::PopNext));
    let mut faulted = clear();
    faulted.navigation_faulted = true;
    let (s, a) = drain_step(drain(clear(), None), DrainEvent::FixtureRemovalDone(faulted));
    assert_eq!(a, act(DrainNext::Stop));
    assert!(s.faults.navigation_faulted);
}
