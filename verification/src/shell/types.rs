//! Identities of providers, surfaces and their instances, and the intents
//! that surfaces send to the shell.
use vstd::prelude::*;

use super::catalogue::EntryId;

verus! {

#[derive(Clone, Copy, Debug, Eq, Ord, PartialEq, PartialOrd, Structural)]
pub struct ProviderId(pub u16);

#[derive(Clone, Copy, Debug, Eq, Ord, PartialEq, PartialOrd, Structural)]
pub struct ProviderGeneration(pub u32);

/// A provider as the shell issued it: its id and registration generation.
#[derive(Clone, Copy, Debug, Eq, Ord, PartialEq, PartialOrd, Structural)]
pub struct ProviderToken {
    pub id: ProviderId,
    pub generation: ProviderGeneration,
}

impl ProviderToken {
    /// The token for `id` at `generation`.
    pub fn issued(id: ProviderId, generation: ProviderGeneration) -> (r: Self)
        ensures
            r == (ProviderToken { id, generation }),
    {
        ProviderToken { id, generation }
    }
}

#[derive(Clone, Copy, Debug, Eq, Ord, PartialEq, PartialOrd, Structural)]
pub struct SurfaceId(pub u16);

/// A surface of one provider registration.
#[derive(Clone, Copy, Debug, Eq, Ord, PartialEq, PartialOrd, Structural)]
pub struct SurfaceRef {
    pub owner: ProviderToken,
    pub id: SurfaceId,
}

#[derive(Clone, Copy, Debug, Eq, Ord, PartialEq, PartialOrd, Structural)]
pub struct InstanceGeneration(pub u32);

/// One created instance of a surface.
#[derive(Clone, Copy, Debug, Eq, Ord, PartialEq, PartialOrd, Structural)]
pub struct SurfaceInstanceToken {
    pub surface: SurfaceRef,
    pub generation: InstanceGeneration,
}

impl SurfaceInstanceToken {
    /// The token of instance `generation` of `surface`.
    pub fn issued(surface: SurfaceRef, generation: InstanceGeneration) -> (r: Self)
        ensures
            r == (SurfaceInstanceToken { surface, generation }),
    {
        SurfaceInstanceToken { surface, generation }
    }
}

impl SurfaceRef {
    /// Surface `id` of `owner`.
    pub fn new(owner: ProviderToken, id: u16) -> (r: Self)
        ensures
            r == (SurfaceRef { owner, id: SurfaceId(id) }),
    {
        SurfaceRef { owner, id: SurfaceId(id) }
    }
}

/// What a provider declares about one of its surfaces.
#[derive(Clone, Copy, Debug, Eq, PartialEq, Structural)]
pub struct SurfaceSpec {
    pub id: SurfaceId,
    pub role: SurfaceRole,
    pub capabilities: SurfaceCapabilities,
    pub refresh_hint: RefreshHint,
}

impl SurfaceSpec {
    /// A surface declaration.
    pub fn new(id: u16, role: SurfaceRole, capabilities: SurfaceCapabilities, refresh_hint: RefreshHint) -> (r: Self)
        ensures
            r == (SurfaceSpec { id: SurfaceId(id), role, capabilities, refresh_hint }),
    {
        SurfaceSpec { id: SurfaceId(id), role, capabilities, refresh_hint }
    }

    /// The declaration bound to the registration `owner`.
    pub fn with_owner(self, owner: ProviderToken) -> (r: SurfaceDefinition)
        ensures
            r == (SurfaceDefinition {
                surface: SurfaceRef { owner, id: self.id },
                role: self.role,
                capabilities: self.capabilities,
                refresh_hint: self.refresh_hint,
            }),
    {
        SurfaceDefinition::new(SurfaceRef { owner, id: self.id }, self.role, self.capabilities, self.refresh_hint)
    }
}

/// The part a surface plays in navigation.
#[derive(Clone, Copy, Debug, Eq, PartialEq, Structural)]
pub enum SurfaceRole {
    Ambient,
    Launcher,
    AppRoot,
    AppChild,
    SystemRoot,
    Overlay,
}

impl SurfaceRole {
    /// App and system roots are where a launch lands.
    pub fn is_launch_root(self) -> (r: bool)
        ensures
            r == (self == SurfaceRole::AppRoot || self == SurfaceRole::SystemRoot),
    {
        matches!(self, SurfaceRole::AppRoot | SurfaceRole::SystemRoot)
    }
}

/// A set of capability bits.
#[derive(Clone, Copy, Debug, Eq, PartialEq, Structural)]
pub struct SurfaceCapabilities(pub u8);

/// `a` has every bit of `b`.
pub open spec fn caps_contain(a: u8, b: u8) -> bool {
    a & b == b
}

impl SurfaceCapabilities {
    /// No capability.
    pub fn none() -> (r: Self)
        ensures
            r.0 == 0,
    {
        SurfaceCapabilities(0)
    }

    /// Can be launched from the launcher.
    pub fn launchable() -> (r: Self)
        ensures
            r.0 == 1,
    {
        SurfaceCapabilities(1)
    }

    /// Can be the ambient home.
    pub fn ambient() -> (r: Self)
        ensures
            r.0 == 2,
    {
        SurfaceCapabilities(2)
    }

    /// Can be shown as an overlay.
    pub fn overlay() -> (r: Self)
        ensures
            r.0 == 4,
    {
        SurfaceCapabilities(4)
    }

    /// Both sets of bits.
    pub fn union(self, other: Self) -> (r: Self)
        ensures
            r.0 == self.0 | other.0,
    {
        SurfaceCapabilities(self.0 | other.0)
    }

    /// Whether every bit of `other` is set.
    pub fn contains(self, other: Self) -> (r: bool)
        ensures
            r == caps_contain(self.0, other.0),
    {
        self.0 & other.0 == other.0
    }
}

/// A union holds both of its parts, every set holds itself and the empty
/// set, holding is transitive, and a set holds another exactly when the
/// union with it leaves the set unchanged.
pub proof fn lemma_capabilities(a: u8, b: u8, c: u8)
    ensures
        caps_contain(a, b) <==> (a | b) == a,
        caps_contain(a | b, a),
        caps_contain(a | b, b),
        caps_contain(a, a),
        caps_contain(a, 0),
        caps_contain(a, b) && caps_contain(b, c) ==> caps_contain(a, c),
{
    assert((a & b == b) <==> ((a | b) == a)) by (bit_vector);
    assert((a | b) & a == a) by (bit_vector);
    assert((a | b) & b == b) by (bit_vector);
    assert(a & a == a) by (bit_vector);
    assert(a & 0 == 0) by (bit_vector);
    assert((a & b == b && b & c == c) ==> a & c == c) by (bit_vector);
}

#[derive(Clone, Copy, Debug, Eq, Ord, PartialEq, PartialOrd, Structural)]
pub enum RefreshHint {
    Micro,
    Content,
    Boundary,
}

/// A registered surface.
#[derive(Clone, Copy, Debug, Eq, PartialEq, Structural)]
pub struct SurfaceDefinition {
    pub surface: SurfaceRef,
    pub role: SurfaceRole,
    pub capabilities: SurfaceCapabilities,
    pub refresh_hint: RefreshHint,
}

impl SurfaceDefinition {
    /// A registered surface.
    pub fn new(surface: SurfaceRef, role: SurfaceRole, capabilities: SurfaceCapabilities, refresh_hint: RefreshHint) -> (r: Self)
        ensures
            r == (SurfaceDefinition { surface, role, capabilities, refresh_hint }),
    {
        SurfaceDefinition { surface, role, capabilities, refresh_hint }
    }
}

#[derive(Clone, Copy, Debug, Eq, PartialEq, Structural)]
pub enum OverlayInput {
    Passive,
    Interactive,
    Modal,
}

#[derive(Clone, Copy, Debug, Eq, PartialEq, Structural)]
pub enum OverlayLifetime {
    Transient,
    Sticky,
}

#[derive(Clone, Copy, Debug, Eq, Ord, PartialEq, PartialOrd, Structural)]
pub enum OverlayBand {
    Provider,
    BaseSystem,
}

#[derive(Clone, Copy, Debug, Eq, PartialEq, Structural)]
pub struct OverlayInstance {
    pub token: SurfaceInstanceToken,
    pub request_owner: ProviderToken,
    pub band: OverlayBand,
    pub input: OverlayInput,
    pub lifetime: OverlayLifetime,
    pub rank: u8,
}

#[derive(Clone, Copy, Debug, Eq, PartialEq, Structural)]
pub enum OverlayAdmission {
    Active(OverlayInstance),
    Queued(OverlayInstance),
}

#[derive(Clone, Copy, Debug, Eq, PartialEq, Structural)]
pub struct OverlayDismissal {
    pub removed: OverlayInstance,
    pub removed_was_live: bool,
    pub promoted: Option<OverlayInstance>,
}

/// `surface` belongs to exactly the registration `owner`.
pub open spec fn owned_by(surface: SurfaceRef, owner: ProviderToken) -> bool {
    surface.owner.id.0 == owner.id.0 && surface.owner.generation.0 == owner.generation.0
}

/// A navigation request.
#[derive(Clone, Copy, Debug, Eq, PartialEq, Structural)]
pub enum NavIntent {
    OpenLauncher(SurfaceRef),
    Launch(SurfaceRef),
    Push(SurfaceRef),
    Back,
    Home,
}

/// Whether a navigation request names a surface of `owner`.
pub open spec fn nav_references(intent: NavIntent, owner: ProviderToken) -> bool {
    match intent {
        NavIntent::OpenLauncher(s) => owned_by(s, owner),
        NavIntent::Launch(s) => owned_by(s, owner),
        NavIntent::Push(s) => owned_by(s, owner),
        NavIntent::Back | NavIntent::Home => false,
    }
}

impl NavIntent {
    /// Whether the request names a surface of `owner`.
    pub fn references_provider(self, owner: ProviderToken) -> (r: bool)
        ensures
            r == nav_references(self, owner),
    {
        match self {
            NavIntent::OpenLauncher(surface) | NavIntent::Launch(surface) | NavIntent::Push(surface) => {
                surface.owner.id.0 == owner.id.0 && surface.owner.generation.0 == owner.generation.0
            },
            NavIntent::Back | NavIntent::Home => false,
        }
    }
}

#[derive(Clone, Copy, Debug, Eq, PartialEq, Structural)]
pub struct OwnedNavIntent {
    pub source: SurfaceInstanceToken,
    pub intent: NavIntent,
}

#[derive(Clone, Copy, Debug, Eq, PartialEq, Structural)]
pub enum CompositionIntent {
    Request { surface: SurfaceRef, input: OverlayInput, lifetime: OverlayLifetime, rank: u8 },
    DismissActiveModal,
}

#[derive(Clone, Copy, Debug, Eq, PartialEq, Structural)]
pub struct OwnedCompositionIntent {
    pub source: SurfaceInstanceToken,
    pub intent: CompositionIntent,
}

#[derive(Clone, Copy, Debug, Eq, PartialEq, Structural)]
pub enum RefreshIntent {
    FullRepaint,
}

#[derive(Clone, Copy, Debug, Eq, PartialEq, Structural)]
pub struct OwnedRefreshIntent {
    pub source: SurfaceInstanceToken,
    pub intent: RefreshIntent,
}

/// A user-interface settings request.
#[derive(Clone, Copy, Debug, Eq, PartialEq, Structural)]
pub enum UiSettingsIntent {
    /// Make the ambient scene of this catalogue entry the home screen.
    SelectAmbient(EntryId),
    /// Turn the overlay of this catalogue entry on or off.
    ToggleOverlay(EntryId),
}

#[derive(Clone, Copy, Debug, Eq, PartialEq, Structural)]
pub struct OwnedUiSettingsIntent {
    pub source: SurfaceInstanceToken,
    pub intent: UiSettingsIntent,
}

/// Any intent a surface instance sends to the shell.
#[derive(Clone, Copy, Debug, Eq, PartialEq, Structural)]
pub enum OwnedShellIntent {
    Navigate(OwnedNavIntent),
    Compose(OwnedCompositionIntent),
    Refresh(OwnedRefreshIntent),
    Configure(OwnedUiSettingsIntent),
}

/// The instance that sent an intent.
pub open spec fn intent_source(i: OwnedShellIntent) -> SurfaceInstanceToken {
    match i {
        OwnedShellIntent::Navigate(n) => n.source,
        OwnedShellIntent::Compose(c) => c.source,
        OwnedShellIntent::Refresh(r) => r.source,
        OwnedShellIntent::Configure(c) => c.source,
    }
}

/// Whether an intent was sent by, or names a surface of, `owner`.
pub open spec fn shell_intent_references(i: OwnedShellIntent, owner: ProviderToken) -> bool {
    owned_by(intent_source(i).surface, owner) || match i {
        OwnedShellIntent::Navigate(n) => nav_references(n.intent, owner),
        OwnedShellIntent::Compose(c) => match c.intent {
            CompositionIntent::Request { surface, .. } => owned_by(surface, owner),
            CompositionIntent::DismissActiveModal => false,
        },
        _ => false,
    }
}

impl OwnedShellIntent {
    /// The instance that sent the intent.
    pub fn source(self) -> (r: SurfaceInstanceToken)
        ensures
            r == intent_source(self),
    {
        match self {
            OwnedShellIntent::Navigate(intent) => intent.source,
            OwnedShellIntent::Compose(intent) => intent.source,
            OwnedShellIntent::Refresh(intent) => intent.source,
            OwnedShellIntent::Configure(intent) => intent.source,
        }
    }

    /// Whether the intent was sent by, or names a surface of, `owner`.
    pub fn references_provider(self, owner: ProviderToken) -> (r: bool)
        ensures
            r == shell_intent_references(self, owner),
    {
        match self {
            OwnedShellIntent::Navigate(intent) => {
                intent.source.surface.owner.id.0 == owner.id.0 && intent.source.surface.owner.generation.0
                    == owner.generation.0 || intent.intent.references_provider(owner)
            },
            OwnedShellIntent::Compose(intent) => {
                if intent.source.surface.owner.id.0 == owner.id.0 && intent.source.surface.owner.generation.0
                    == owner.generation.0 {
                    return true;
                }
                match intent.intent {
                    CompositionIntent::Request { surface, .. } => {
                        surface.owner.id.0 == owner.id.0 && surface.owner.generation.0 == owner.generation.0
                    },
                    CompositionIntent::DismissActiveModal => false,
                }
            },
            OwnedShellIntent::Refresh(intent) => {
                intent.source.surface.owner.id.0 == owner.id.0 && intent.source.surface.owner.generation.0
                    == owner.generation.0
            },
            OwnedShellIntent::Configure(intent) => {
                intent.source.surface.owner.id.0 == owner.id.0 && intent.source.surface.owner.generation.0
                    == owner.generation.0
            },
        }
    }
}

} // verus!
