use meditamer::shell::catalogue::{
    CatalogueEntry, Compatibility, CompiledCatalogue, EntryId, GlyphRef, Health, Residency, SourcePresence,
};
use meditamer::shell::composition::CompositionPlanResult;
use meditamer::shell::types::{
    InstanceGeneration, NavIntent, OverlayAdmission, OverlayBand, OverlayDismissal, OverlayInput, OverlayInstance,
    OverlayLifetime, ProviderGeneration, ProviderId, ProviderToken, SurfaceCapabilities, SurfaceInstanceToken,
    SurfaceRef, UiSettingsIntent,
};
use meditamer::ui::overlay_flow::{
    commit_confirms, composition_route, live_runtime_full, overlay_visible, settings_return, settings_step,
    settle_dismissal, CompositionRoute, DismissalOutcome, DismissalStages, SettingsStep,
};
use meditamer::ui::navigation_flow::{startup_destination, startup_landed};
use meditamer::ui::settlement::BackendFaults;

fn clear() -> BackendFaults {
    BackendFaults {
        navigation_faulted: false,
        composition_faulted: false,
        lifecycle_audit_faulted: false,
        cleanup_blocked: false,
        overlay_cleanup_blocked: false,
    }
}

fn owner() -> ProviderToken {
    ProviderToken { id: ProviderId(1), generation: ProviderGeneration(1) }
}

fn instance(id: u16, input: OverlayInput) -> OverlayInstance {
    OverlayInstance {
        token: SurfaceInstanceToken::issued(SurfaceRef::new(owner(), id), InstanceGeneration(1)),
        request_owner: owner(),
        band: OverlayBand::BaseSystem,
        input,
        lifetime: OverlayLifetime::Sticky,
        rank: 1,
    }
}

fn dismissal(live: bool, promoted: Option<OverlayInstance>) -> OverlayDismissal {
    OverlayDismissal { removed: instance(3, OverlayInput::Modal), removed_was_live: live, promoted }
}

#[test]
fn the_ambient_view_hides_all_but_modals() {
    assert!(overlay_visible(false, false));
    assert!(overlay_visible(true, true));
    assert!(!overlay_visible(true, false));
}

#[test]
fn composition_plans_route_by_admission_and_liveness() {
    let i = instance(4, OverlayInput::Modal);
    assert_eq!(composition_route(CompositionPlanResult::Admission(OverlayAdmission::Queued(i))), CompositionRoute::CommitQueued(i));
    assert_eq!(composition_route(CompositionPlanResult::Admission(OverlayAdmission::Active(i))), CompositionRoute::EnterLive(i));
    let queued = dismissal(false, None);
    assert_eq!(composition_route(CompositionPlanResult::Removal(queued)), CompositionRoute::CommitQueuedRemoval(queued));
    let live = dismissal(true, Some(i));
    assert_eq!(composition_route(CompositionPlanResult::Removal(live)), CompositionRoute::RemoveLive(live));
}

#[test]
fn commits_confirm_only_the_planned_result() {
    let planned = CompositionPlanResult::Admission(OverlayAdmission::Active(instance(4, OverlayInput::Modal)));
    assert!(commit_confirms::<()>(planned, Ok(planned)));
    let other = CompositionPlanResult::Admission(OverlayAdmission::Queued(instance(4, OverlayInput::Modal)));
    assert!(!commit_confirms::<()>(planned, Ok(other)));
    assert!(!commit_confirms(planned, Err(())));
}

#[test]
fn live_runtime_is_full_only_at_capacity_after_departures() {
    assert!(live_runtime_full(4, 0, 4));
    assert!(!live_runtime_full(4, 1, 4));
    assert!(!live_runtime_full(1, 3, 4));
    assert!(live_runtime_full(0, 3, 0));
}

fn stages() -> DismissalStages {
    DismissalStages {
        promotes: false,
        promotion_created: false,
        promotion_enabled: false,
        runtime_found: true,
        quiesced: true,
        commit_confirmed: true,
        reenabled: false,
        destroyed: true,
    }
}

#[test]
fn dismissal_without_promotion_releases_the_capture() {
    let d = settle_dismissal(clear(), stages());
    assert_eq!(d.outcome, DismissalOutcome::Dismissed);
    assert_eq!(d.faults, clear());
    assert!(d.release_capture);
    assert!(!settle_dismissal(clear(), DismissalStages { destroyed: false, ..stages() }).release_capture);
    let promoting = DismissalStages { promotes: true, promotion_created: true, promotion_enabled: true, ..stages() };
    let p = settle_dismissal(clear(), promoting);
    assert_eq!(p.outcome, DismissalOutcome::Dismissed);
    assert!(!p.release_capture);
}

#[test]
fn dismissal_faults_follow_the_failing_stage() {
    let refused = settle_dismissal(clear(), DismissalStages { promotes: true, ..stages() });
    assert_eq!(refused.outcome, DismissalOutcome::PromotionRefused);
    assert_eq!(refused.faults, clear());
    let enable = settle_dismissal(clear(), DismissalStages { promotes: true, promotion_created: true, ..stages() });
    assert_eq!(enable.outcome, DismissalOutcome::PromotionEnableFault);
    assert!(enable.faults.navigation_faulted && enable.faults.composition_faulted);
    let missing = settle_dismissal(clear(), DismissalStages { runtime_found: false, ..stages() });
    assert_eq!(missing.outcome, DismissalOutcome::MissingRuntime);
    assert!(missing.faults.composition_faulted);
    let quiesce = settle_dismissal(clear(), DismissalStages { quiesced: false, ..stages() });
    assert_eq!(quiesce.outcome, DismissalOutcome::QuiesceFault);
    let rolled = settle_dismissal(clear(), DismissalStages { commit_confirmed: false, reenabled: true, ..stages() });
    assert_eq!(rolled.outcome, DismissalOutcome::RolledBack);
    assert_eq!(rolled.faults, clear());
    assert!(!rolled.release_capture);
    let stuck = settle_dismissal(clear(), DismissalStages { commit_confirmed: false, ..stages() });
    assert!(stuck.faults.navigation_faulted && stuck.faults.composition_faulted);
}

fn catalogue_entry(local: u16, capabilities: SurfaceCapabilities, health: Health) -> CatalogueEntry {
    CatalogueEntry {
        id: EntryId::new(7, local),
        label: "entry",
        glyph: GlyphRef(local),
        surface: Some(SurfaceRef::new(owner(), local)),
        capabilities,
        default_rank: local as u8,
        pin: None,
        source: SourcePresence::BuiltIn,
        residency: Residency::NotApplicable,
        compatibility: Compatibility::Compatible,
        health,
    }
}

#[test]
fn settings_requests_need_a_ready_entry_and_a_clean_running_source() {
    let home = catalogue_entry(1, SurfaceCapabilities::ambient(), Health::Ready);
    let broken = catalogue_entry(2, SurfaceCapabilities::ambient(), Health::Faulted);
    let control = catalogue_entry(3, SurfaceCapabilities::overlay(), Health::Ready);
    let catalogue = CompiledCatalogue::<4>::new(&[home, broken, control], home.id).unwrap();

    let select = UiSettingsIntent::SelectAmbient(home.id);
    assert_eq!(settings_step(clear(), true, select, &catalogue, control.id, false), SettingsStep::SelectAmbient(home.id));
    assert_eq!(settings_step(clear(), false, select, &catalogue, control.id, false), SettingsStep::Reject);
    let mut held = clear();
    held.cleanup_blocked = true;
    assert_eq!(settings_step(held, true, select, &catalogue, control.id, false), SettingsStep::Reject);
    assert_eq!(
        settings_step(clear(), true, UiSettingsIntent::SelectAmbient(broken.id), &catalogue, control.id, false),
        SettingsStep::Reject
    );
    assert_eq!(
        settings_step(clear(), true, UiSettingsIntent::SelectAmbient(control.id), &catalogue, control.id, false),
        SettingsStep::Reject
    );

    let toggle = UiSettingsIntent::ToggleOverlay(control.id);
    assert_eq!(
        settings_step(clear(), true, toggle, &catalogue, control.id, false),
        SettingsStep::ToggleOverlay { id: control.id, enable: true }
    );
    assert_eq!(
        settings_step(clear(), true, toggle, &catalogue, control.id, true),
        SettingsStep::ToggleOverlay { id: control.id, enable: false }
    );
    assert_eq!(settings_step(clear(), true, toggle, &catalogue, home.id, true), SettingsStep::Reject);
    assert_eq!(settings_return(select), NavIntent::Home);
    assert_eq!(settings_return(toggle), NavIntent::Back);
}

#[test]
fn startup_entry_leads_to_a_ready_listed_surface_or_nowhere() {
    let home = catalogue_entry(1, SurfaceCapabilities::ambient(), Health::Ready);
    let broken = catalogue_entry(2, SurfaceCapabilities::launchable(), Health::Faulted);
    let app = catalogue_entry(3, SurfaceCapabilities::launchable(), Health::Ready);
    let catalogue = CompiledCatalogue::<4>::new(&[home, broken, app], home.id).unwrap();
    assert_eq!(startup_destination(&catalogue, None), None);
    assert_eq!(startup_destination(&catalogue, Some(app.id)), app.surface);
    assert_eq!(startup_destination(&catalogue, Some(broken.id)), None);
    assert_eq!(startup_destination(&catalogue, Some(EntryId::new(7, 9))), None);
    let target = app.surface.unwrap();
    assert!(startup_landed(target, target, true));
    assert!(!startup_landed(target, target, false));
    assert!(!startup_landed(home.surface.unwrap(), target, true));
}
