use meditamer::shell::catalogue::{
    CatalogueAction, CatalogueBadge, CatalogueEntry, CatalogueError, CatalogueViewKind, Compatibility, CompiledCatalogue,
    EntryId, GlyphRef, Health, Residency, SourcePresence,
};
use meditamer::shell::types::{ProviderGeneration, ProviderId, ProviderToken, SurfaceCapabilities, SurfaceRef};

const NAMESPACE: u16 = 7;

#[derive(Clone, Copy)]
struct EntryAxes {
    source: SourcePresence,
    residency: Residency,
    compatibility: Compatibility,
    health: Health,
}

const BUILT_IN_READY: EntryAxes = EntryAxes {
    source: SourcePresence::BuiltIn,
    residency: Residency::NotApplicable,
    compatibility: Compatibility::Compatible,
    health: Health::Ready,
};
const LIBRARY_READY: EntryAxes = EntryAxes {
    source: SourcePresence::LibraryPresent,
    residency: Residency::Resident,
    compatibility: Compatibility::Compatible,
    health: Health::Ready,
};

fn fallback_id() -> EntryId {
    EntryId::new(NAMESPACE, 1)
}

fn surface(id: u16) -> SurfaceRef {
    SurfaceRef::new(ProviderToken { id: ProviderId(1), generation: ProviderGeneration(1) }, id)
}

fn entry(
    local: u16,
    label: &'static str,
    capabilities: SurfaceCapabilities,
    default_rank: u8,
    pin: Option<u8>,
    axes: EntryAxes,
) -> CatalogueEntry {
    CatalogueEntry {
        id: EntryId::new(NAMESPACE, local),
        label,
        glyph: GlyphRef(local),
        surface: Some(surface(local)),
        capabilities,
        default_rank,
        pin,
        source: axes.source,
        residency: axes.residency,
        compatibility: axes.compatibility,
        health: axes.health,
    }
}

fn fallback() -> CatalogueEntry {
    entry(1, "Home", SurfaceCapabilities::ambient(), 0, None, BUILT_IN_READY)
}

#[test]
fn views_filter_capabilities_under_one_stable_entry_id() {
    let shared = entry(
        2,
        "Shared",
        SurfaceCapabilities::launchable().union(SurfaceCapabilities::ambient()).union(SurfaceCapabilities::overlay()),
        2,
        None,
        BUILT_IN_READY,
    );
    let catalogue = CompiledCatalogue::<4>::new(&[fallback(), shared], fallback_id()).unwrap();

    for kind in [CatalogueViewKind::Launcher, CatalogueViewKind::AmbientPicker, CatalogueViewKind::OverlaySettings] {
        assert!(catalogue.view(kind).entries().iter().any(|candidate| candidate.id == shared.id));
    }
}

#[test]
fn state_axes_are_independent_and_resident_entries_survive_source_removal() {
    let base = entry(2, "Candidate", SurfaceCapabilities::launchable(), 0, None, LIBRARY_READY);
    assert_eq!(base.badge(), CatalogueBadge::Ready);
    assert_eq!(CatalogueEntry { source: SourcePresence::LibraryAbsent, ..base }.badge(), CatalogueBadge::Ready);
    assert_eq!(CatalogueEntry { residency: Residency::NotResident, ..base }.badge(), CatalogueBadge::NotResident);
    assert_eq!(
        CatalogueEntry { compatibility: Compatibility::Incompatible, ..base }.badge(),
        CatalogueBadge::Incompatible
    );
    assert_eq!(
        CatalogueEntry { compatibility: Compatibility::Unknown, ..base }.badge(),
        CatalogueBadge::CompatibilityUnknown
    );
    assert_eq!(CatalogueEntry { health: Health::Faulted, ..base }.badge(), CatalogueBadge::Faulted);
}

#[test]
fn ordering_is_pins_then_default_rank_then_id_and_launch_does_not_mutate_it() {
    let entries = [
        fallback(),
        entry(5, "Late", SurfaceCapabilities::launchable(), 2, None, BUILT_IN_READY),
        entry(4, "Rank tie", SurfaceCapabilities::launchable(), 1, None, BUILT_IN_READY),
        entry(3, "Pinned second", SurfaceCapabilities::launchable(), 9, Some(1), BUILT_IN_READY),
        entry(2, "Pinned first", SurfaceCapabilities::launchable(), 9, Some(0), BUILT_IN_READY),
    ];
    let catalogue = CompiledCatalogue::<6>::new(&entries, fallback_id()).unwrap();
    let before = catalogue.view(CatalogueViewKind::Launcher);
    let selected = before.entries()[2].action();
    assert!(matches!(selected, CatalogueAction::Enter(_)));
    let after = catalogue.view(CatalogueViewKind::Launcher);

    let expected = [
        EntryId::new(NAMESPACE, 2),
        EntryId::new(NAMESPACE, 3),
        EntryId::new(NAMESPACE, 4),
        EntryId::new(NAMESPACE, 5),
    ];
    assert_eq!(before.entries().iter().map(|candidate| candidate.id).collect::<Vec<_>>().as_slice(), expected);
    assert_eq!(before.entries(), after.entries());
}

#[test]
fn capacity_duplicate_and_faults_preserve_base_entries_and_fallback() {
    let launchable = entry(2, "Diagnostics", SurfaceCapabilities::launchable(), 0, None, BUILT_IN_READY);
    let mut catalogue = CompiledCatalogue::<2>::new(&[fallback(), launchable], fallback_id()).unwrap();
    assert_eq!(catalogue.register(launchable), Err(CatalogueError::DuplicateId(launchable.id)));
    assert_eq!(
        catalogue.register(entry(3, "Overflow", SurfaceCapabilities::launchable(), 1, None, BUILT_IN_READY)),
        Err(CatalogueError::Capacity)
    );
    assert_eq!(catalogue.len(), 2);
    assert_eq!(catalogue.ambient_fallback().id, fallback_id());

    assert!(catalogue.mark_surface_faulted(launchable.surface.unwrap()));
    let view = catalogue.view(CatalogueViewKind::Launcher);
    assert_eq!(view.entries().len(), 1);
    assert_eq!(view.entries()[0].badge(), CatalogueBadge::Faulted);
    assert_eq!(catalogue.ambient_fallback().badge(), CatalogueBadge::Ready);
}

#[test]
fn invalid_fallbacks_fail_closed() {
    assert_eq!(
        CompiledCatalogue::<2>::new(&[fallback()], EntryId::new(NAMESPACE, 99)).err(),
        Some(CatalogueError::MissingAmbientFallback(EntryId::new(NAMESPACE, 99)))
    );
    let faulted = CatalogueEntry { health: Health::Faulted, ..fallback() };
    assert_eq!(
        CompiledCatalogue::<2>::new(&[faulted], fallback_id()).err(),
        Some(CatalogueError::InvalidAmbientFallback(fallback_id()))
    );
}

#[test]
fn pins_reorder_the_launcher_and_unavailable_entries_say_why() {
    let entries = [
        fallback(),
        entry(2, "First", SurfaceCapabilities::launchable(), 0, None, BUILT_IN_READY),
        entry(3, "Second", SurfaceCapabilities::launchable(), 1, None, BUILT_IN_READY),
    ];
    let mut catalogue = CompiledCatalogue::<4>::new(&entries, fallback_id()).unwrap();
    catalogue.apply_pins(&[EntryId::new(NAMESPACE, 3)]);
    let view = catalogue.view(CatalogueViewKind::Launcher);
    assert_eq!(view.entries()[0].id, EntryId::new(NAMESPACE, 3));
    assert_eq!(view.entries()[1].id, EntryId::new(NAMESPACE, 2));

    let broken = CatalogueEntry { compatibility: Compatibility::Incompatible, ..entries[1] };
    assert_eq!(broken.action(), CatalogueAction::Unavailable(CatalogueBadge::Incompatible));
    assert_eq!(CatalogueBadge::Incompatible.label(), "Incompatible");
    assert!(CompiledCatalogue::<4>::new(&[], fallback_id()).err() == Some(CatalogueError::Empty));
}
