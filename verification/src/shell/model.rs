//! The UI shell model: registered providers and their surfaces, the
//! navigation stack and its one live screen instance, overlay composition,
//! the queue of navigation intents, and transactional provider removal.
//!
//! Every change is first prepared as a plan against the current revision and
//! then committed; any other change in between makes the plan stale, and a
//! dropped plan changes nothing. Instance generations are issued by the
//! shell, so an intent from a destroyed instance is recognised as stale.
use vstd::prelude::*;

use super::composition::{
    admission_spec, cleanup_spec, merged_hint, modal_index, plan_admission, plan_cleanup, plan_removal, removal_spec,
    token_index, token_position, CleanupOutcome, CompositionDelta, CompositionOutcome, CompositionPlanResult,
    CompositionReferenceError, OverlayEntry, PlannedCleanup, PlannedComposition, merge_hints,
};
use super::intent_queue::{nav_survives, IntentQueue, IntentQueueError};
use super::navigator::{navigation_spec, plan_navigation, NavStep, NavigationError, NavigationOutcome};
use super::registry::{
    bind_definitions, bound_definitions, check_registration, is_registered, registered, registration_spec, resolve,
    resolve_spec, RegistrationError, ResolveError,
};
use super::types::{
    owned_by, CompositionIntent, InstanceGeneration, NavIntent, OverlayAdmission, OverlayBand, OverlayDismissal,
    OverlayInput, OverlayInstance, OverlayLifetime, OwnedCompositionIntent, OwnedNavIntent, ProviderGeneration,
    ProviderId, ProviderToken, RefreshHint, SurfaceDefinition, SurfaceId, SurfaceInstanceToken, SurfaceRef,
    SurfaceRole, SurfaceSpec,
};

verus! {

broadcast use vstd::seq_lib::group_seq_properties;

/// Providers the default shell registers at most, the base system included.
pub const PROVIDER_CAPACITY: usize = 8;
/// Surfaces the default shell registers at most.
pub const SURFACE_REGISTRY_CAPACITY: usize = 16;
/// Depth of the default navigation stack.
pub const NAVIGATION_STACK_CAPACITY: usize = 8;
/// Overlays drawn at once by the default shell.
pub const LIVE_OVERLAY_CAPACITY: usize = 4;
/// Modals the default shell holds back behind the live one.
pub const MODAL_QUEUE_CAPACITY: usize = 4;
/// Navigation intents the default shell holds.
pub const SHELL_INTENT_QUEUE_CAPACITY: usize = 8;
/// Retained models the shell keeps alive off screen (none yet).
pub const RETAINED_MODEL_CAPACITY: usize = 0;
/// The most retained-model references a later phase may add.
pub const FUTURE_RETAINED_MODEL_REFERENCE_CEILING: usize = 4;

/// Why the shell could not be set up.
#[derive(Clone, Copy, Debug, Eq, PartialEq, Structural)]
pub enum ShellInitError {
    Registration(RegistrationError),
    /// The base provider declared no surface with the home id.
    MissingHome(SurfaceId),
    /// The home surface is not an ambient surface.
    InvalidHome(SurfaceId),
    /// The navigation stack cannot hold even the home screen.
    InvalidCapacity,
}

/// Why a provider registration was refused.
#[derive(Clone, Copy, Debug, Eq, PartialEq, Structural)]
pub enum ProviderRegistrationError {
    Registration(RegistrationError),
    ProviderRemovalInProgress,
}

/// Why a navigation could not be prepared or committed.
#[derive(Clone, Copy, Debug, Eq, PartialEq, Structural)]
pub enum ShellNavigationError {
    Resolve(ResolveError),
    Navigation(NavigationError),
    /// The shell changed after the plan was prepared.
    StalePlan,
    ProviderRemovalInProgress,
    /// No instance generation is left to issue.
    GenerationExhausted,
}

/// Why an overlay change could not be prepared or committed.
#[derive(Clone, Copy, Debug, Eq, PartialEq, Structural)]
pub enum CompositionError {
    Reference(CompositionReferenceError),
    Resolve(ResolveError),
    /// The surface is not an overlay surface.
    NotOverlay(SurfaceRef),
    /// The intent did not come from the instance allowed to send it: the
    /// active screen for requests, the live modal for its dismissal.
    InvalidSource(SurfaceInstanceToken),
    /// No live or queued overlay has this instance.
    UnknownOverlay(SurfaceInstanceToken),
    NoActiveModal,
    /// The shell changed after the plan was prepared.
    StalePlan,
    ProviderRemovalInProgress,
    GenerationExhausted,
}

/// Why a provider removal could not go ahead.
#[derive(Clone, Copy, Debug, Eq, PartialEq, Structural)]
pub enum ProviderRemovalError {
    /// Another removal is detached and not yet finalized.
    RemovalInProgress,
    /// The base system provider cannot be removed.
    BaseProvider,
    /// The token is not a current registration.
    UnknownProvider(ProviderToken),
    /// The shell changed after the plan was prepared.
    StalePlan,
    /// No detached removal matches.
    NoPendingRemoval,
    /// The runtime audit is for another provider.
    RuntimeAuditMismatch,
    GenerationExhausted,
}

/// Where navigation lands when the provider of a frame on the stack goes
/// away: back home, in a new instance.
#[derive(Clone, Copy, Debug, Eq, PartialEq, Structural)]
pub struct FallbackTransition {
    pub origin: SurfaceInstanceToken,
    pub destination: SurfaceDefinition,
    pub destination_instance: SurfaceInstanceToken,
}

/// What a finished removal took out of navigation.
#[derive(Clone, Copy, Debug, Eq, PartialEq, Structural)]
pub struct NavigationPurge {
    pub removed_frames: usize,
    pub active_changed: bool,
}

/// What a removal took out of composition.
#[derive(Clone, Copy, Debug, Eq, PartialEq, Structural)]
pub struct CompositionPurge {
    pub live_overlays: usize,
    pub queued_modals: usize,
}

/// Everything a finished removal took out.
#[derive(Clone, Copy, Debug, Eq, PartialEq, Structural)]
pub struct ProviderPurge {
    pub definitions: usize,
    pub navigation: NavigationPurge,
    pub composition: CompositionPurge,
    pub queued_intents: usize,
}

/// The runtime's confirmation that it released everything of a provider.
#[derive(Clone, Copy, Debug, Eq, PartialEq, Structural)]
pub struct ProviderRuntimeAudit {
    pub owner: ProviderToken,
}

impl ProviderRuntimeAudit {
    /// The runtime released every object of `owner`.
    pub fn verified(owner: ProviderToken) -> (r: Self)
        ensures
            r.owner == owner,
    {
        ProviderRuntimeAudit { owner }
    }
}

/// A detached removal waiting for its runtime audit.
#[derive(Clone, Copy, Debug, Eq, PartialEq, Structural)]
pub struct PendingRemovalState {
    pub owner: ProviderToken,
    pub fallback: Option<FallbackTransition>,
    pub live_overlays: usize,
    pub queued_modals: usize,
}

/// The handle of a detached removal.
#[derive(Clone, Copy, Debug, Eq, PartialEq, Structural)]
pub struct PendingProviderRemoval {
    pub state: PendingRemovalState,
}

impl PendingProviderRemoval {
    /// The provider being removed.
    pub fn owner(&self) -> (r: ProviderToken)
        ensures
            r == self.state.owner,
    {
        self.state.owner
    }
}

/// The shell as a mathematical value.
pub struct ShellState {
    pub base: ProviderToken,
    pub providers: Seq<ProviderToken>,
    pub definitions: Seq<SurfaceDefinition>,
    pub stack: Seq<SurfaceDefinition>,
    pub active: SurfaceInstanceToken,
    pub live: Seq<OverlayEntry>,
    pub queued: Seq<OverlayEntry>,
    pub intents: Seq<OwnedNavIntent>,
    pub next_provider_generation: u32,
    pub next_instance_generation: u32,
    pub revision: u64,
    pub pending: Option<PendingRemovalState>,
}

/// The shell, generic over its capacities: providers, surfaces, stack
/// depth, live overlays, queued modals and queued intents.
pub struct ShellModel<
    const PROVIDERS: usize,
    const SURFACES: usize,
    const STACK: usize,
    const LIVE: usize,
    const MODALS: usize,
    const INTENTS: usize,
> {
    base: ProviderToken,
    providers: Vec<ProviderToken>,
    definitions: Vec<SurfaceDefinition>,
    stack: Vec<SurfaceDefinition>,
    active: SurfaceInstanceToken,
    live: Vec<OverlayEntry>,
    queued: Vec<OverlayEntry>,
    intents: IntentQueue<INTENTS>,
    next_provider_generation: u32,
    next_instance_generation: u32,
    revision: u64,
    pending: Option<PendingRemovalState>,
}

/// The shell with the default capacities.
pub type DefaultShellModel = ShellModel<8, 16, 8, 4, 4, 8>;

/// The revision after one more change.
pub open spec fn bumped(r: u64) -> u64 {
    if r == u64::MAX { 0 } else { (r + 1) as u64 }
}

fn bump(r: u64) -> (n: u64)
    ensures
        n == bumped(r),
{
    if r == u64::MAX {
        0
    } else {
        r + 1
    }
}

fn fresh_entries(v: &Vec<OverlayEntry>, next: u32, active: SurfaceInstanceToken) -> (r: bool)
    ensures
        r == entries_fresh(v@, next, active),
{
    let mut i: usize = 0;
    while i < v.len()
        invariant
            i <= v@.len(),
            entries_fresh(v@.take(i as int), next, active),
        decreases v@.len() - i,
    {
        let e = v[i];
        if e.instance.token.generation.0 >= next || e.instance.token == active {
            assert(!entries_fresh(v@, next, active)) by {
                assert(v@[i as int] == e);
            }
            return false;
        }
        assert(v@.take(i + 1) =~= v@.take(i as int).push(e));
        i = i + 1;
    }
    assert(v@.take(v@.len() as int) =~= v@);
    true
}

/// Whether `t` is a live instance: the active screen or a live overlay.
pub open spec fn is_live_instance(s: ShellState, t: SurfaceInstanceToken) -> bool {
    t == s.active || token_index(s.live, t, 0) is Some
}

/// The state after `f` replaces the intent queue and bumps the revision.
pub open spec fn with_intents(s: ShellState, intents: Seq<OwnedNavIntent>) -> ShellState {
    ShellState { intents, revision: bumped(s.revision), ..s }
}

/// Queueing a navigation intent: refused while a removal is detached, from
/// a provider that is not registered, from an instance that is not live,
/// or when the queue is full.
pub open spec fn queue_intent_spec(s: ShellState, intent: OwnedNavIntent, capacity: int) -> Result<
    (),
    IntentQueueError,
> {
    if s.pending is Some {
        Err(IntentQueueError::ProviderRemovalInProgress)
    } else if !is_registered(s.providers, intent.source.surface.owner) {
        Err(IntentQueueError::InvalidOwner)
    } else if !is_live_instance(s, intent.source) {
        Err(IntentQueueError::StaleInstance)
    } else if s.intents.len() >= capacity {
        Err(IntentQueueError::Capacity)
    } else {
        Ok(())
    }
}

/// A prepared navigation: where it goes from and to, the stack it leaves,
/// the instance the destination runs as, and the overlay cleanup it brings.
pub struct NavigationPlan {
    revision: u64,
    origin: SurfaceDefinition,
    origin_instance: SurfaceInstanceToken,
    destination_instance: SurfaceInstanceToken,
    stack: Vec<SurfaceDefinition>,
    outcome: NavigationOutcome,
    issues_instance: bool,
    live: Vec<OverlayEntry>,
    queued: Vec<OverlayEntry>,
    delta: CompositionDelta,
}

/// The content of a navigation plan.
pub struct NavigationPlanView {
    pub revision: u64,
    pub origin: SurfaceDefinition,
    pub origin_instance: SurfaceInstanceToken,
    pub destination_instance: SurfaceInstanceToken,
    pub stack: Seq<SurfaceDefinition>,
    pub outcome: NavigationOutcome,
    pub issues_instance: bool,
    pub live: Seq<OverlayEntry>,
    pub queued: Seq<OverlayEntry>,
    pub leave: Seq<OverlayInstance>,
    pub enter: Seq<OverlayInstance>,
    pub dropped: Seq<OverlayInstance>,
}

impl NavigationPlan {
    /// The plan's content.
    pub closed spec fn view(&self) -> NavigationPlanView {
        NavigationPlanView {
            revision: self.revision,
            origin: self.origin,
            origin_instance: self.origin_instance,
            destination_instance: self.destination_instance,
            stack: self.stack@,
            outcome: self.outcome,
            issues_instance: self.issues_instance,
            live: self.live@,
            queued: self.queued@,
            leave: self.delta.leave@,
            enter: self.delta.enter@,
            dropped: self.delta.dropped@,
        }
    }

    /// The screen navigation starts from.
    pub fn origin(&self) -> (r: SurfaceDefinition)
        ensures
            r == self.view().origin,
    {
        self.origin
    }

    /// The screen navigation lands on.
    pub fn destination(&self) -> (r: SurfaceDefinition)
        requires
            self.view().stack.len() > 0,
        ensures
            r == self.view().stack.last(),
    {
        self.stack[self.stack.len() - 1]
    }

    /// The instance the destination runs as.
    pub fn destination_instance(&self) -> (r: SurfaceInstanceToken)
        ensures
            r == self.view().destination_instance,
    {
        self.destination_instance
    }

    /// Whether the destination needs a new instance in place of `active`.
    pub fn requires_reentry(&self, active: SurfaceInstanceToken) -> (r: bool)
        ensures
            r == (self.view().destination_instance != active),
    {
        self.destination_instance != active
    }

    /// Whether the stack changes.
    pub fn outcome(&self) -> (r: NavigationOutcome)
        ensures
            r == self.view().outcome,
    {
        self.outcome
    }

    /// The overlay changes that come with the navigation.
    pub fn composition_delta(&self) -> (r: &CompositionDelta)
        ensures
            r.leave@ == self.view().leave,
            r.enter@ == self.view().enter,
            r.dropped@ == self.view().dropped,
    {
        &self.delta
    }
}

/// The resolved step of a navigation intent.
pub open spec fn step_spec(s: ShellState, intent: NavIntent) -> Result<NavStep, ResolveError> {
    match intent {
        NavIntent::OpenLauncher(r) => match resolve_spec(s.providers, s.definitions, r) {
            Ok(d) => Ok(NavStep::OpenLauncher(d)),
            Err(e) => Err(e),
        },
        NavIntent::Launch(r) => match resolve_spec(s.providers, s.definitions, r) {
            Ok(d) => Ok(NavStep::Launch(d)),
            Err(e) => Err(e),
        },
        NavIntent::Push(r) => match resolve_spec(s.providers, s.definitions, r) {
            Ok(d) => Ok(NavStep::Push(d)),
            Err(e) => Err(e),
        },
        NavIntent::Back => Ok(NavStep::Back),
        NavIntent::Home => Ok(NavStep::Home),
    }
}

/// A plan to move to `next`: a changed stack gets a new instance of its top
/// and drops the transient overlays; an unchanged one keeps everything.
pub open spec fn transition_view(s: ShellState, next: Seq<SurfaceDefinition>, outcome: NavigationOutcome, force_reentry: bool) -> NavigationPlanView {
    if outcome == NavigationOutcome::Changed || force_reentry {
        let c = cleanup_spec(s.live, s.queued, None, true);
        NavigationPlanView {
            revision: s.revision,
            origin: s.stack.last(),
            origin_instance: s.active,
            destination_instance: SurfaceInstanceToken {
                surface: next.last().surface,
                generation: InstanceGeneration(s.next_instance_generation),
            },
            stack: next,
            outcome,
            issues_instance: true,
            live: c.live,
            queued: c.queued,
            leave: c.leave,
            enter: c.enter,
            dropped: c.dropped,
        }
    } else {
        NavigationPlanView {
            revision: s.revision,
            origin: s.stack.last(),
            origin_instance: s.active,
            destination_instance: s.active,
            stack: next,
            outcome,
            issues_instance: false,
            live: s.live,
            queued: s.queued,
            leave: Seq::empty(),
            enter: Seq::empty(),
            dropped: Seq::empty(),
        }
    }
}

/// Preparing a navigation intent: refused while a removal is detached, when
/// its target does not resolve, when the step is impossible, or when a new
/// instance is needed and none can be issued.
pub open spec fn prepare_intent_spec(s: ShellState, intent: NavIntent, capacity: int) -> Result<
    NavigationPlanView,
    ShellNavigationError,
> {
    if s.pending is Some {
        Err(ShellNavigationError::ProviderRemovalInProgress)
    } else {
        match step_spec(s, intent) {
            Err(e) => Err(ShellNavigationError::Resolve(e)),
            Ok(step) => match navigation_spec(s.stack, step, capacity) {
                Err(e) => Err(ShellNavigationError::Navigation(e)),
                Ok((next, outcome)) => if outcome == NavigationOutcome::Changed && s.next_instance_generation
                    == u32::MAX {
                    Err(ShellNavigationError::GenerationExhausted)
                } else {
                    Ok(transition_view(s, next, outcome, false))
                },
            },
        }
    }
}

/// Preparing the recovery of home: the stack shrinks to home, which always
/// gets a new instance.
pub open spec fn recovery_spec(s: ShellState) -> Result<NavigationPlanView, ShellNavigationError> {
    if s.pending is Some {
        Err(ShellNavigationError::ProviderRemovalInProgress)
    } else if s.next_instance_generation == u32::MAX {
        Err(ShellNavigationError::GenerationExhausted)
    } else {
        let next = seq![s.stack[0]];
        Ok(
            transition_view(
                s,
                next,
                if next == s.stack { NavigationOutcome::Unchanged } else { NavigationOutcome::Changed },
                true,
            ),
        )
    }
}

/// Every entry was issued below generation `next` and is not `active`.
pub open spec fn entries_fresh(v: Seq<OverlayEntry>, next: u32, active: SurfaceInstanceToken) -> bool {
    forall|i: int|
        0 <= i < v.len() ==> (#[trigger] v[i]).instance.token.generation.0 < next && v[i].instance.token != active
}

/// Instance generations are issued from a counter: every instance in use
/// is below it, no overlay is the active screen's instance, and a detached
/// fallback holds the next generation.
pub open spec fn instances_fresh(s: ShellState) -> bool {
    &&& s.active.generation.0 < s.next_instance_generation
    &&& entries_fresh(s.live, s.next_instance_generation, s.active)
    &&& entries_fresh(s.queued, s.next_instance_generation, s.active)
    &&& (s.pending matches Some(p) ==> (p.fallback matches Some(f) ==> f.destination_instance.generation.0
        == s.next_instance_generation))
}

/// The instance counter after a plan that may issue one instance.
pub open spec fn counter_after(s: ShellState, issues: bool) -> u32 {
    if issues { (s.next_instance_generation + 1) as u32 } else { s.next_instance_generation }
}

/// Whether a plan fits this shell's capacities and is consistent with it.
pub open spec fn nav_plan_fits(p: NavigationPlanView, s: ShellState, stack: int, live: int, modals: int) -> bool {
    &&& 1 <= p.stack.len() <= stack
    &&& p.destination_instance.surface == p.stack.last().surface
    &&& p.live.len() <= live
    &&& p.queued.len() <= modals
    &&& (p.issues_instance ==> p.destination_instance.generation.0 == s.next_instance_generation
        && s.next_instance_generation < u32::MAX)
    &&& (!p.issues_instance ==> p.destination_instance == s.active)
    &&& entries_fresh(p.live, counter_after(s, p.issues_instance), p.destination_instance)
    &&& entries_fresh(p.queued, counter_after(s, p.issues_instance), p.destination_instance)
}

/// Committing a navigation plan: refused when the shell changed since it
/// was prepared (or it does not fit); otherwise its stack, instance and
/// overlays take effect.
pub open spec fn commit_navigation_spec(s: ShellState, p: NavigationPlanView, stack: int, live: int, modals: int) -> (
    Result<NavigationOutcome, ShellNavigationError>,
    ShellState,
) {
    if p.revision != s.revision || s.pending is Some || !nav_plan_fits(p, s, stack, live, modals) {
        (Err(ShellNavigationError::StalePlan), s)
    } else {
        (
            Ok(p.outcome),
            ShellState {
                stack: p.stack,
                active: p.destination_instance,
                live: p.live,
                queued: p.queued,
                next_instance_generation: if p.issues_instance {
                    (p.destination_instance.generation.0 + 1) as u32
                } else {
                    s.next_instance_generation
                },
                revision: bumped(s.revision),
                ..s
            },
        )
    }
}

/// A prepared overlay change: its result, the new live list and queue, the
/// delta, and the instance generation it issues, if it admits an overlay.
pub struct CompositionPlan {
    revision: u64,
    planned: PlannedComposition,
    issued: Option<u32>,
}

/// The content of a composition plan.
pub struct CompositionPlanView {
    pub revision: u64,
    pub outcome: CompositionOutcome,
    pub issued: Option<u32>,
}

impl CompositionPlan {
    /// The plan's content.
    pub closed spec fn view(&self) -> CompositionPlanView {
        CompositionPlanView { revision: self.revision, outcome: self.planned.outcome(), issued: self.issued }
    }

    /// What the plan does.
    pub fn result(&self) -> (r: CompositionPlanResult)
        ensures
            r == self.view().outcome.result,
    {
        self.planned.result
    }

    /// The overlay changes the plan makes.
    pub fn delta(&self) -> (r: &CompositionDelta)
        ensures
            r.leave@ == self.view().outcome.leave,
            r.enter@ == self.view().outcome.enter,
            r.dropped@ == self.view().outcome.dropped,
    {
        &self.planned.delta
    }

    /// Whether the plan makes a new overlay live, which the runtime has to
    /// create before committing.
    pub fn requires_entry(&self) -> (r: bool)
        ensures
            r == (self.view().outcome.result matches CompositionPlanResult::Admission(OverlayAdmission::Active(_))),
    {
        match self.planned.result {
            CompositionPlanResult::Admission(OverlayAdmission::Active(_)) => true,
            _ => false,
        }
    }
}

/// The overlay a request would admit: a new instance of `surface`, in the
/// base-system band when the base provider owns the surface.
pub open spec fn requested_entry(
    s: ShellState,
    def: SurfaceDefinition,
    input: OverlayInput,
    lifetime: OverlayLifetime,
    rank: u8,
    request_owner: ProviderToken,
) -> OverlayEntry {
    OverlayEntry {
        instance: OverlayInstance {
            token: SurfaceInstanceToken {
                surface: def.surface,
                generation: InstanceGeneration(s.next_instance_generation),
            },
            request_owner,
            band: if def.surface.owner == s.base { OverlayBand::BaseSystem } else { OverlayBand::Provider },
            input,
            lifetime,
            rank,
        },
        hint: def.refresh_hint,
    }
}

/// Preparing an overlay request on behalf of `request_owner`.
pub open spec fn request_spec(
    s: ShellState,
    surface: SurfaceRef,
    input: OverlayInput,
    lifetime: OverlayLifetime,
    rank: u8,
    request_owner: ProviderToken,
    live: int,
    modals: int,
) -> Result<CompositionPlanView, CompositionError> {
    if s.pending is Some {
        Err(CompositionError::ProviderRemovalInProgress)
    } else {
        match resolve_spec(s.providers, s.definitions, surface) {
            Err(e) => Err(CompositionError::Resolve(e)),
            Ok(def) => if def.role != SurfaceRole::Overlay {
                Err(CompositionError::NotOverlay(surface))
            } else if s.next_instance_generation == u32::MAX {
                Err(CompositionError::GenerationExhausted)
            } else {
                match admission_spec(
                    s.live,
                    s.queued,
                    requested_entry(s, def, input, lifetime, rank, request_owner),
                    live,
                    modals,
                ) {
                    Err(e) => Err(CompositionError::Reference(e)),
                    Ok(o) => Ok(
                        CompositionPlanView {
                            revision: s.revision,
                            outcome: o,
                            issued: Some(s.next_instance_generation),
                        },
                    ),
                }
            },
        }
    }
}

/// Preparing the removal of the overlay `token`.
pub open spec fn removal_plan_spec(s: ShellState, token: SurfaceInstanceToken) -> Result<CompositionPlanView, CompositionError> {
    if s.pending is Some {
        Err(CompositionError::ProviderRemovalInProgress)
    } else {
        match removal_spec(s.live, s.queued, token) {
            None => Err(CompositionError::UnknownOverlay(token)),
            Some(o) => Ok(CompositionPlanView { revision: s.revision, outcome: o, issued: None }),
        }
    }
}

/// Preparing a composition intent: a request must come from the active
/// screen, a dismissal from the live modal.
pub open spec fn composition_intent_spec(s: ShellState, intent: OwnedCompositionIntent, live: int, modals: int) -> Result<
    CompositionPlanView,
    CompositionError,
> {
    if s.pending is Some {
        Err(CompositionError::ProviderRemovalInProgress)
    } else {
        match intent.intent {
            CompositionIntent::Request { surface, input, lifetime, rank } => if intent.source != s.active {
                Err(CompositionError::InvalidSource(intent.source))
            } else {
                request_spec(s, surface, input, lifetime, rank, intent.source.surface.owner, live, modals)
            },
            CompositionIntent::DismissActiveModal => match modal_index(s.live, 0) {
                Some(m) => if s.live[m].instance.token == intent.source {
                    removal_plan_spec(s, intent.source)
                } else {
                    Err(CompositionError::InvalidSource(intent.source))
                },
                None => Err(CompositionError::InvalidSource(intent.source)),
            },
        }
    }
}

/// Whether a composition plan fits this shell.
pub open spec fn composition_plan_fits(p: CompositionPlanView, s: ShellState, live: int, modals: int) -> bool {
    &&& p.outcome.live.len() <= live
    &&& p.outcome.queued.len() <= modals
    &&& (p.issued matches Some(g) ==> g == s.next_instance_generation && g < u32::MAX)
    &&& entries_fresh(p.outcome.live, counter_after(s, p.issued is Some), s.active)
    &&& entries_fresh(p.outcome.queued, counter_after(s, p.issued is Some), s.active)
}

/// Committing a composition plan: refused when the shell changed since it
/// was prepared (or it does not fit); otherwise its live list and queue
/// take effect.
pub open spec fn commit_composition_spec(s: ShellState, p: CompositionPlanView, live: int, modals: int) -> (
    Result<CompositionPlanResult, CompositionError>,
    ShellState,
) {
    if p.revision != s.revision || s.pending is Some || !composition_plan_fits(p, s, live, modals) {
        (Err(CompositionError::StalePlan), s)
    } else {
        (
            Ok(p.outcome.result),
            ShellState {
                live: p.outcome.live,
                queued: p.outcome.queued,
                next_instance_generation: match p.issued {
                    Some(g) => (g + 1) as u32,
                    None => s.next_instance_generation,
                },
                revision: bumped(s.revision),
                ..s
            },
        )
    }
}

/// A prepared provider removal: the provider, the fallback home when one of
/// its surfaces is on the stack, and the overlay cleanup.
pub struct ProviderRemovalPlan {
    revision: u64,
    owner: ProviderToken,
    fallback: Option<FallbackTransition>,
    cleanup: PlannedCleanup,
}

/// The content of a removal plan.
pub struct ProviderRemovalPlanView {
    pub revision: u64,
    pub owner: ProviderToken,
    pub fallback: Option<FallbackTransition>,
    pub cleanup: CleanupOutcome,
}

impl ProviderRemovalPlan {
    /// The plan's content.
    pub closed spec fn view(&self) -> ProviderRemovalPlanView {
        ProviderRemovalPlanView {
            revision: self.revision,
            owner: self.owner,
            fallback: self.fallback,
            cleanup: self.cleanup.outcome(),
        }
    }

    /// The provider to remove.
    pub fn owner(&self) -> (r: ProviderToken)
        ensures
            r == self.view().owner,
    {
        self.owner
    }

    /// The fallback home, when navigation has to leave the provider.
    pub fn fallback_transition(&self) -> (r: Option<FallbackTransition>)
        ensures
            r == self.view().fallback,
    {
        self.fallback
    }

    /// The overlay changes the removal makes.
    pub fn composition_delta(&self) -> (r: &CompositionDelta)
        ensures
            r.leave@ == self.view().cleanup.leave,
            r.enter@ == self.view().cleanup.enter,
            r.dropped@ == self.view().cleanup.dropped,
    {
        &self.cleanup.delta
    }
}

/// Whether a frame of the stack belongs to `owner`.
pub open spec fn stack_owned_by(stack: Seq<SurfaceDefinition>, owner: ProviderToken) -> bool {
    exists|i: int| 0 <= i < stack.len() && owned_by((#[trigger] stack[i]).surface, owner)
}

/// Preparing the removal of `owner`: refused while another removal is
/// detached, for the base provider and for a registration that is not
/// current. When one of its surfaces is on the stack, navigation falls
/// back home in a new instance and transient overlays go too.
pub open spec fn removal_prepare_spec(s: ShellState, owner: ProviderToken) -> Result<
    ProviderRemovalPlanView,
    ProviderRemovalError,
> {
    if s.pending is Some {
        Err(ProviderRemovalError::RemovalInProgress)
    } else if owner == s.base {
        Err(ProviderRemovalError::BaseProvider)
    } else if !is_registered(s.providers, owner) {
        Err(ProviderRemovalError::UnknownProvider(owner))
    } else if stack_owned_by(s.stack, owner) && s.next_instance_generation == u32::MAX {
        Err(ProviderRemovalError::GenerationExhausted)
    } else {
        let falls_back = stack_owned_by(s.stack, owner);
        Ok(
            ProviderRemovalPlanView {
                revision: s.revision,
                owner,
                fallback: if falls_back {
                    Some(
                        FallbackTransition {
                            origin: s.active,
                            destination: s.stack[0],
                            destination_instance: SurfaceInstanceToken {
                                surface: s.stack[0].surface,
                                generation: InstanceGeneration(s.next_instance_generation),
                            },
                        },
                    )
                } else {
                    None
                },
                cleanup: cleanup_spec(s.live, s.queued, Some(owner), falls_back),
            },
        )
    }
}

/// Whether a removal plan fits this shell.
pub open spec fn removal_plan_fits(s: ShellState, p: ProviderRemovalPlanView, live: int, modals: int) -> bool {
    &&& p.cleanup.live.len() <= live
    &&& p.cleanup.queued.len() <= modals
    &&& (p.fallback matches Some(f) ==> f.destination_instance.surface == s.stack[0].surface
        && f.destination_instance.generation.0 == s.next_instance_generation && s.next_instance_generation
        < u32::MAX)
    &&& entries_fresh(p.cleanup.live, s.next_instance_generation, s.active)
    &&& entries_fresh(p.cleanup.queued, s.next_instance_generation, s.active)
}

/// Detaching a planned removal: the overlay cleanup takes effect and the
/// shell refuses every other change until the removal is finalized.
pub open spec fn detach_spec(s: ShellState, p: ProviderRemovalPlanView, live: int, modals: int) -> (
    Result<PendingProviderRemoval, ProviderRemovalError>,
    ShellState,
) {
    if p.revision != s.revision || s.pending is Some || !removal_plan_fits(s, p, live, modals) {
        (Err(ProviderRemovalError::StalePlan), s)
    } else {
        let st = PendingRemovalState {
            owner: p.owner,
            fallback: p.fallback,
            live_overlays: p.cleanup.leave.len() as usize,
            queued_modals: p.cleanup.dropped.len() as usize,
        };
        (
            Ok(PendingProviderRemoval { state: st }),
            ShellState {
                live: p.cleanup.live,
                queued: p.cleanup.queued,
                pending: Some(st),
                revision: bumped(s.revision),
                ..s
            },
        )
    }
}

/// A definition that survives the removal of `owner`.
pub open spec fn def_survives(owner: ProviderToken) -> spec_fn(SurfaceDefinition) -> bool {
    |d: SurfaceDefinition| !owned_by(d.surface, owner)
}

/// A provider that survives the removal of `owner`.
pub open spec fn provider_survives(owner: ProviderToken) -> spec_fn(ProviderToken) -> bool {
    |p: ProviderToken| p != owner
}

/// Finalizing a detached removal once the runtime audit confirms it: the
/// provider, its surfaces and every intent from or naming it go, and
/// navigation falls back home when it has to.
pub open spec fn finalize_spec(s: ShellState, pending: PendingProviderRemoval, audit: ProviderRuntimeAudit) -> (
    Result<ProviderPurge, ProviderRemovalError>,
    ShellState,
) {
    if s.pending != Some(pending.state) {
        (Err(ProviderRemovalError::NoPendingRemoval), s)
    } else if audit.owner != pending.state.owner {
        (Err(ProviderRemovalError::RuntimeAuditMismatch), s)
    } else {
        let owner = pending.state.owner;
        let defs = s.definitions.filter(def_survives(owner));
        let intents = s.intents.filter(nav_survives(owner));
        let s1 = ShellState {
            providers: s.providers.filter(provider_survives(owner)),
            definitions: defs,
            intents,
            pending: None,
            revision: bumped(s.revision),
            ..s
        };
        let (s2, nav) = match pending.state.fallback {
            Some(f) => (
                ShellState {
                    stack: seq![s.stack[0]],
                    active: f.destination_instance,
                    next_instance_generation: (f.destination_instance.generation.0 + 1) as u32,
                    ..s1
                },
                NavigationPurge { removed_frames: (s.stack.len() - 1) as usize, active_changed: true },
            ),
            None => (s1, NavigationPurge { removed_frames: 0, active_changed: false }),
        };
        (
            Ok(
                ProviderPurge {
                    definitions: (s.definitions.len() - defs.len()) as usize,
                    navigation: nav,
                    composition: CompositionPurge {
                        live_overlays: pending.state.live_overlays,
                        queued_modals: pending.state.queued_modals,
                    },
                    queued_intents: (s.intents.len() - intents.len()) as usize,
                },
            ),
            s2,
        )
    }
}

/// A prepared removal of every transient overlay.
pub struct TransientRemovalPlan {
    revision: u64,
    cleanup: PlannedCleanup,
}

impl TransientRemovalPlan {
    /// The revision the plan was prepared at.
    pub closed spec fn revision(&self) -> u64 {
        self.revision
    }

    /// The plan's content.
    pub closed spec fn content(&self) -> CleanupOutcome {
        self.cleanup.outcome()
    }

    /// The overlay changes the plan makes.
    pub fn composition_delta(&self) -> (r: &CompositionDelta)
        ensures
            r.leave@ == self.content().leave,
            r.enter@ == self.content().enter,
            r.dropped@ == self.content().dropped,
    {
        &self.cleanup.delta
    }
}

/// Committing a transient removal: refused when the shell changed since it
/// was prepared; otherwise its live list and queue take effect.
pub open spec fn commit_transient_spec(s: ShellState, revision: u64, c: CleanupOutcome, live: int, modals: int) -> (
    Result<(), CompositionError>,
    ShellState,
) {
    if revision != s.revision || s.pending is Some || c.live.len() > live || c.queued.len() > modals
        || !entries_fresh(c.live, s.next_instance_generation, s.active) || !entries_fresh(
        c.queued,
        s.next_instance_generation,
        s.active,
    ) {
        (Err(CompositionError::StalePlan), s)
    } else {
        (Ok(()), ShellState { live: c.live, queued: c.queued, revision: bumped(s.revision), ..s })
    }
}

/// The outcome of setting up a shell.
pub open spec fn init_spec(base_provider: ProviderId, specs: Seq<SurfaceSpec>, home: SurfaceId, providers: int, surfaces: int, stack: int) -> Result<
    ShellState,
    ShellInitError,
> {
    let base = ProviderToken { id: base_provider, generation: ProviderGeneration(1) };
    let defs = bound_definitions(specs, base);
    let home_ref = SurfaceRef { owner: base, id: home };
    if stack < 1 {
        Err(ShellInitError::InvalidCapacity)
    } else if let Err(e) = registration_spec(Seq::empty(), Seq::empty(), base_provider, specs, providers, surfaces, 1) {
        Err(ShellInitError::Registration(e))
    } else {
        match super::registry::find_definition(defs, home_ref, 0) {
            None => Err(ShellInitError::MissingHome(home)),
            Some(h) => if defs[h].role != SurfaceRole::Ambient {
                Err(ShellInitError::InvalidHome(home))
            } else {
                Ok(
                    ShellState {
                        base,
                        providers: seq![base],
                        definitions: defs,
                        stack: seq![defs[h]],
                        active: SurfaceInstanceToken { surface: home_ref, generation: InstanceGeneration(1) },
                        live: Seq::empty(),
                        queued: Seq::empty(),
                        intents: Seq::empty(),
                        next_provider_generation: 2,
                        next_instance_generation: 2,
                        revision: 0,
                        pending: None,
                    },
                )
            },
        }
    }
}

impl<
    const PROVIDERS: usize,
    const SURFACES: usize,
    const STACK: usize,
    const LIVE: usize,
    const MODALS: usize,
    const INTENTS: usize,
> ShellModel<PROVIDERS, SURFACES, STACK, LIVE, MODALS, INTENTS> {
    /// The shell's state.
    pub closed spec fn state(&self) -> ShellState {
        ShellState {
            base: self.base,
            providers: self.providers@,
            definitions: self.definitions@,
            stack: self.stack@,
            active: self.active,
            live: self.live@,
            queued: self.queued@,
            intents: self.intents.queued(),
            next_provider_generation: self.next_provider_generation,
            next_instance_generation: self.next_instance_generation,
            revision: self.revision,
            pending: self.pending,
        }
    }

    /// The stack holds at least home and at most its capacity, and the
    /// active instance is of the top frame.
    pub closed spec fn wf(&self) -> bool {
        &&& 1 <= self.stack@.len() <= STACK
        &&& self.active.surface == self.stack@.last().surface
        &&& self.live@.len() <= LIVE
        &&& self.queued@.len() <= MODALS
        &&& (self.pending matches Some(p) ==> (p.fallback matches Some(f) ==> f.destination_instance.surface
            == self.stack@[0].surface && f.destination_instance.generation.0 < u32::MAX))
        &&& instances_fresh(self.state())
    }

    /// Sets up the shell with the base system provider's surfaces, showing
    /// the ambient surface `home`.
    pub fn new(base_provider: ProviderId, specs: &[SurfaceSpec], home: SurfaceId) -> (r: Result<Self, ShellInitError>)
        ensures
            match (r, init_spec(base_provider, specs@, home, PROVIDERS as int, SURFACES as int, STACK as int)) {
                (Ok(shell), Ok(s)) => shell.state() == s && shell.wf(),
                (Err(a), Err(b)) => a == b,
                _ => false,
            },
    {
        if STACK < 1 {
            return Err(ShellInitError::InvalidCapacity);
        }
        let providers: Vec<ProviderToken> = Vec::new();
        let mut definitions: Vec<SurfaceDefinition> = Vec::new();
        let base = match check_registration(&providers, &definitions, base_provider, specs, PROVIDERS, SURFACES, 1) {
            Ok(token) => token,
            Err(e) => return Err(ShellInitError::Registration(e)),
        };
        bind_definitions(&mut definitions, specs, base);
        assert(definitions@ =~= bound_definitions(specs@, base));
        let home_ref = SurfaceRef { owner: base, id: home };
        let h = match super::registry::definition_position(&definitions, home_ref) {
            Some(h) => h,
            None => return Err(ShellInitError::MissingHome(home)),
        };
        let home_def = definitions[h];
        if home_def.role != SurfaceRole::Ambient {
            return Err(ShellInitError::InvalidHome(home));
        }
        let mut providers = providers;
        providers.push(base);
        let mut stack: Vec<SurfaceDefinition> = Vec::new();
        stack.push(home_def);
        let shell = ShellModel {
            base,
            providers,
            definitions,
            stack,
            active: SurfaceInstanceToken { surface: home_ref, generation: InstanceGeneration(1) },
            live: Vec::new(),
            queued: Vec::new(),
            intents: IntentQueue::new(),
            next_provider_generation: 2,
            next_instance_generation: 2,
            revision: 0,
            pending: None,
        };
        assert(shell.state().providers =~= seq![base]);
        assert(shell.state().stack =~= seq![home_def]);
        Ok(shell)
    }

    /// The active screen's definition.
    pub fn active(&self) -> (r: SurfaceDefinition)
        requires
            self.wf(),
        ensures
            r == self.state().stack.last(),
    {
        self.stack[self.stack.len() - 1]
    }

    /// The active screen's instance.
    pub fn active_instance(&self) -> (r: SurfaceInstanceToken)
        ensures
            r == self.state().active,
    {
        self.active
    }

    /// Number of registered surfaces.
    pub fn definition_len(&self) -> (r: usize)
        ensures
            r == self.state().definitions.len(),
    {
        self.definitions.len()
    }

    /// Number of registered providers.
    pub fn provider_len(&self) -> (r: usize)
        ensures
            r == self.state().providers.len(),
    {
        self.providers.len()
    }

    /// Depth of the navigation stack.
    pub fn navigation_len(&self) -> (r: usize)
        ensures
            r == self.state().stack.len(),
    {
        self.stack.len()
    }

    /// The frame at `index` from the bottom of the stack.
    pub fn navigation_frame(&self, index: usize) -> (r: Option<SurfaceDefinition>)
        ensures
            index < self.state().stack.len() ==> r == Some(self.state().stack[index as int]),
            index >= self.state().stack.len() ==> r is None,
    {
        if index < self.stack.len() {
            Some(self.stack[index])
        } else {
            None
        }
    }

    /// Number of live overlays.
    pub fn live_overlay_len(&self) -> (r: usize)
        ensures
            r == self.state().live.len(),
    {
        self.live.len()
    }

    /// The live overlay at `index`, bottom first.
    pub fn live_overlay(&self, index: usize) -> (r: Option<OverlayInstance>)
        ensures
            index < self.state().live.len() ==> r == Some(self.state().live[index as int].instance),
            index >= self.state().live.len() ==> r is None,
    {
        if index < self.live.len() {
            Some(self.live[index].instance)
        } else {
            None
        }
    }

    /// Number of queued modals.
    pub fn queued_modal_len(&self) -> (r: usize)
        ensures
            r == self.state().queued.len(),
    {
        self.queued.len()
    }

    /// The queued modal at `index`, next first.
    pub fn queued_modal(&self, index: usize) -> (r: Option<OverlayInstance>)
        ensures
            index < self.state().queued.len() ==> r == Some(self.state().queued[index as int].instance),
            index >= self.state().queued.len() ==> r is None,
    {
        if index < self.queued.len() {
            Some(self.queued[index].instance)
        } else {
            None
        }
    }

    /// The live modal, if any.
    pub fn active_modal(&self) -> (r: Option<OverlayInstance>)
        ensures
            r == (match modal_index(self.state().live, 0) {
                Some(m) => Some(self.state().live[m].instance),
                None => None,
            }),
    {
        let mut i: usize = 0;
        while i < self.live.len()
            invariant
                i <= self.live@.len(),
                modal_index(self.live@, 0) == modal_index(self.live@, i as int),
            decreases self.live@.len() - i,
        {
            if self.live[i].instance.input == OverlayInput::Modal {
                return Some(self.live[i].instance);
            }
            i = i + 1;
        }
        None
    }

    /// Number of queued navigation intents.
    pub fn queued_intent_len(&self) -> (r: usize)
        ensures
            r == self.state().intents.len(),
    {
        self.intents.len()
    }

    /// The coarsest refresh hint of the active screen and the live overlays.
    pub fn merged_refresh_hint(&self) -> (r: RefreshHint)
        requires
            self.wf(),
        ensures
            r == merged_hint(self.state().stack.last().refresh_hint, self.state().live),
    {
        let top = self.stack[self.stack.len() - 1];
        merge_hints(top.refresh_hint, &self.live)
    }

    /// Registers a provider with its surfaces.
    pub fn register_provider(&mut self, id: ProviderId, specs: &[SurfaceSpec]) -> (r: Result<
        ProviderToken,
        ProviderRegistrationError,
    >)
        requires
            old(self).wf(),
        ensures
            final(self).wf(),
            old(self).state().pending is Some ==> r == Err::<ProviderToken, _>(
                ProviderRegistrationError::ProviderRemovalInProgress,
            ) && final(self).state() == old(self).state(),
            old(self).state().pending is None ==> match registration_spec(
                old(self).state().providers,
                old(self).state().definitions,
                id,
                specs@,
                PROVIDERS as int,
                SURFACES as int,
                old(self).state().next_provider_generation,
            ) {
                Ok(token) => r == Ok::<ProviderToken, ProviderRegistrationError>(token) && final(self).state() == (
                ShellState {
                    providers: old(self).state().providers.push(token),
                    definitions: old(self).state().definitions + bound_definitions(specs@, token),
                    next_provider_generation: (old(self).state().next_provider_generation + 1) as u32,
                    revision: bumped(old(self).state().revision),
                    ..old(self).state()
                }),
                Err(e) => r == Err::<ProviderToken, _>(ProviderRegistrationError::Registration(e))
                    && final(self).state() == old(self).state(),
            },
    {
        if self.pending.is_some() {
            return Err(ProviderRegistrationError::ProviderRemovalInProgress);
        }
        let token = match check_registration(
            &self.providers,
            &self.definitions,
            id,
            specs,
            PROVIDERS,
            SURFACES,
            self.next_provider_generation,
        ) {
            Ok(token) => token,
            Err(e) => return Err(ProviderRegistrationError::Registration(e)),
        };
        self.providers.push(token);
        bind_definitions(&mut self.definitions, specs, token);
        self.next_provider_generation = self.next_provider_generation + 1;
        self.revision = bump(self.revision);
        Ok(token)
    }

    fn step_of(&self, intent: NavIntent) -> (r: Result<NavStep, ResolveError>)
        ensures
            r == step_spec(self.state(), intent),
    {
        match intent {
            NavIntent::OpenLauncher(target) => match resolve(&self.providers, &self.definitions, target) {
                Ok(d) => Ok(NavStep::OpenLauncher(d)),
                Err(e) => Err(e),
            },
            NavIntent::Launch(target) => match resolve(&self.providers, &self.definitions, target) {
                Ok(d) => Ok(NavStep::Launch(d)),
                Err(e) => Err(e),
            },
            NavIntent::Push(target) => match resolve(&self.providers, &self.definitions, target) {
                Ok(d) => Ok(NavStep::Push(d)),
                Err(e) => Err(e),
            },
            NavIntent::Back => Ok(NavStep::Back),
            NavIntent::Home => Ok(NavStep::Home),
        }
    }

    fn transition(&self, next: Vec<SurfaceDefinition>, outcome: NavigationOutcome, force_reentry: bool) -> (r:
        NavigationPlan)
        requires
            self.wf(),
            next@.len() >= 1,
            (outcome == NavigationOutcome::Changed || force_reentry) ==> self.next_instance_generation < u32::MAX,
        ensures
            r.view() == transition_view(self.state(), next@, outcome, force_reentry),
    {
        let origin = self.stack[self.stack.len() - 1];
        if outcome == NavigationOutcome::Changed || force_reentry {
            let c = plan_cleanup(&self.live, &self.queued, None, true);
            let top = next[next.len() - 1];
            NavigationPlan {
                revision: self.revision,
                origin,
                origin_instance: self.active,
                destination_instance: SurfaceInstanceToken {
                    surface: top.surface,
                    generation: InstanceGeneration(self.next_instance_generation),
                },
                stack: next,
                outcome,
                issues_instance: true,
                live: c.live,
                queued: c.queued,
                delta: c.delta,
            }
        } else {
            NavigationPlan {
                revision: self.revision,
                origin,
                origin_instance: self.active,
                destination_instance: self.active,
                stack: next,
                outcome,
                issues_instance: false,
                live: self.live.clone(),
                queued: self.queued.clone(),
                delta: CompositionDelta { leave: Vec::new(), enter: Vec::new(), dropped: Vec::new() },
            }
        }
    }

    /// Prepares a navigation intent without changing the shell.
    pub fn prepare_intent(&self, intent: NavIntent) -> (r: Result<NavigationPlan, ShellNavigationError>)
        requires
            self.wf(),
        ensures
            match (r, prepare_intent_spec(self.state(), intent, STACK as int)) {
                (Ok(p), Ok(v)) => p.view() == v,
                (Err(a), Err(b)) => a == b,
                _ => false,
            },
    {
        if self.pending.is_some() {
            return Err(ShellNavigationError::ProviderRemovalInProgress);
        }
        let step = match self.step_of(intent) {
            Ok(step) => step,
            Err(e) => return Err(ShellNavigationError::Resolve(e)),
        };
        let (next, outcome) = match plan_navigation(&self.stack, step, STACK) {
            Ok(planned) => planned,
            Err(e) => return Err(ShellNavigationError::Navigation(e)),
        };
        if outcome == NavigationOutcome::Changed && self.next_instance_generation == u32::MAX {
            return Err(ShellNavigationError::GenerationExhausted);
        }
        proof {
            super::navigator::lemma_stepped_nonempty(self.stack@, step);
        }
        Ok(self.transition(next, outcome, false))
    }

    /// Prepares going back home in a new instance, whatever is active.
    pub fn prepare_recovery_home(&self) -> (r: Result<NavigationPlan, ShellNavigationError>)
        requires
            self.wf(),
        ensures
            match (r, recovery_spec(self.state())) {
                (Ok(p), Ok(v)) => p.view() == v,
                (Err(a), Err(b)) => a == b,
                _ => false,
            },
    {
        if self.pending.is_some() {
            return Err(ShellNavigationError::ProviderRemovalInProgress);
        }
        if self.next_instance_generation == u32::MAX {
            return Err(ShellNavigationError::GenerationExhausted);
        }
        let mut next: Vec<SurfaceDefinition> = Vec::new();
        next.push(self.stack[0]);
        let outcome = if self.stack.len() == 1 {
            NavigationOutcome::Unchanged
        } else {
            NavigationOutcome::Changed
        };
        proof {
            assert(next@ =~= seq![self.stack@[0]]);
            if self.stack@.len() == 1 {
                assert(next@ =~= self.stack@);
            } else {
                assert(next@.len() != self.stack@.len());
            }
        }
        Ok(self.transition(next, outcome, true))
    }

    /// Commits a prepared navigation.
    pub fn commit_navigation(&mut self, plan: NavigationPlan) -> (r: Result<NavigationOutcome, ShellNavigationError>)
        requires
            old(self).wf(),
        ensures
            final(self).wf(),
            (r, final(self).state()) == commit_navigation_spec(
                old(self).state(),
                plan.view(),
                STACK as int,
                LIVE as int,
                MODALS as int,
            ),
    {
        let next = if plan.issues_instance && self.next_instance_generation < u32::MAX {
            self.next_instance_generation + 1
        } else {
            self.next_instance_generation
        };
        let fits = plan.stack.len() >= 1 && plan.stack.len() <= STACK && plan.destination_instance.surface
            == plan.stack[plan.stack.len() - 1].surface && plan.live.len() <= LIVE && plan.queued.len() <= MODALS
            && (if plan.issues_instance {
            plan.destination_instance.generation.0 == self.next_instance_generation && self.next_instance_generation
                < u32::MAX
        } else {
            plan.destination_instance == self.active
        }) && fresh_entries(&plan.live, next, plan.destination_instance) && fresh_entries(
            &plan.queued,
            next,
            plan.destination_instance,
        );
        if plan.revision != self.revision || self.pending.is_some() || !fits {
            return Err(ShellNavigationError::StalePlan);
        }
        let outcome = plan.outcome;
        if plan.issues_instance {
            self.next_instance_generation = plan.destination_instance.generation.0 + 1;
        }
        self.stack = plan.stack;
        self.active = plan.destination_instance;
        self.live = plan.live;
        self.queued = plan.queued;
        self.revision = bump(self.revision);
        Ok(outcome)
    }

    fn plan_request(
        &self,
        surface: SurfaceRef,
        input: OverlayInput,
        lifetime: OverlayLifetime,
        rank: u8,
        request_owner: ProviderToken,
    ) -> (r: Result<CompositionPlan, CompositionError>)
        ensures
            match (r, request_spec(self.state(), surface, input, lifetime, rank, request_owner, LIVE as int, MODALS as int)) {
                (Ok(p), Ok(v)) => p.view() == v,
                (Err(a), Err(b)) => a == b,
                _ => false,
            },
    {
        if self.pending.is_some() {
            return Err(CompositionError::ProviderRemovalInProgress);
        }
        let def = match resolve(&self.providers, &self.definitions, surface) {
            Ok(def) => def,
            Err(e) => return Err(CompositionError::Resolve(e)),
        };
        if def.role != SurfaceRole::Overlay {
            return Err(CompositionError::NotOverlay(surface));
        }
        if self.next_instance_generation == u32::MAX {
            return Err(CompositionError::GenerationExhausted);
        }
        let band = if def.surface.owner == self.base {
            OverlayBand::BaseSystem
        } else {
            OverlayBand::Provider
        };
        let entry = OverlayEntry {
            instance: OverlayInstance {
                token: SurfaceInstanceToken {
                    surface: def.surface,
                    generation: InstanceGeneration(self.next_instance_generation),
                },
                request_owner,
                band,
                input,
                lifetime,
                rank,
            },
            hint: def.refresh_hint,
        };
        match plan_admission(&self.live, &self.queued, entry, LIVE, MODALS) {
            Ok(planned) => Ok(
                CompositionPlan { revision: self.revision, planned, issued: Some(self.next_instance_generation) },
            ),
            Err(e) => Err(CompositionError::Reference(e)),
        }
    }

    /// Prepares an overlay request by the surface's own provider.
    pub fn prepare_overlay_request(
        &self,
        surface: SurfaceRef,
        input: OverlayInput,
        lifetime: OverlayLifetime,
        rank: u8,
    ) -> (r: Result<CompositionPlan, CompositionError>)
        ensures
            match (r, request_spec(self.state(), surface, input, lifetime, rank, surface.owner, LIVE as int, MODALS as int)) {
                (Ok(p), Ok(v)) => p.view() == v,
                (Err(a), Err(b)) => a == b,
                _ => false,
            },
    {
        self.plan_request(surface, input, lifetime, rank, surface.owner)
    }

    /// Prepares removing the live or queued overlay `token`.
    pub fn prepare_overlay_removal(&self, token: SurfaceInstanceToken) -> (r: Result<CompositionPlan, CompositionError>)
        ensures
            match (r, removal_plan_spec(self.state(), token)) {
                (Ok(p), Ok(v)) => p.view() == v,
                (Err(a), Err(b)) => a == b,
                _ => false,
            },
    {
        if self.pending.is_some() {
            return Err(CompositionError::ProviderRemovalInProgress);
        }
        match plan_removal(&self.live, &self.queued, token) {
            Some(planned) => Ok(CompositionPlan { revision: self.revision, planned, issued: None }),
            None => Err(CompositionError::UnknownOverlay(token)),
        }
    }

    /// Prepares a composition intent sent by a surface instance.
    pub fn prepare_composition_intent(&self, intent: OwnedCompositionIntent) -> (r: Result<
        CompositionPlan,
        CompositionError,
    >)
        ensures
            match (r, composition_intent_spec(self.state(), intent, LIVE as int, MODALS as int)) {
                (Ok(p), Ok(v)) => p.view() == v,
                (Err(a), Err(b)) => a == b,
                _ => false,
            },
    {
        if self.pending.is_some() {
            return Err(CompositionError::ProviderRemovalInProgress);
        }
        match intent.intent {
            CompositionIntent::Request { surface, input, lifetime, rank } => {
                if intent.source != self.active {
                    return Err(CompositionError::InvalidSource(intent.source));
                }
                self.plan_request(surface, input, lifetime, rank, intent.source.surface.owner)
            },
            CompositionIntent::DismissActiveModal => match self.active_modal() {
                Some(modal) => if modal.token == intent.source {
                    self.prepare_overlay_removal(intent.source)
                } else {
                    Err(CompositionError::InvalidSource(intent.source))
                },
                None => Err(CompositionError::InvalidSource(intent.source)),
            },
        }
    }

    fn apply_composition(&mut self, plan: CompositionPlan) -> (r: Result<CompositionPlanResult, CompositionError>)
        requires
            old(self).wf(),
        ensures
            final(self).wf(),
            (r, final(self).state()) == commit_composition_spec(old(self).state(), plan.view(), LIVE as int, MODALS as int),
    {
        let next = match plan.issued {
            Some(g) => if g == self.next_instance_generation && g < u32::MAX {
                g + 1
            } else {
                self.next_instance_generation
            },
            None => self.next_instance_generation,
        };
        let fits = plan.planned.live.len() <= LIVE && plan.planned.queued.len() <= MODALS && match plan.issued {
            Some(g) => g == self.next_instance_generation && g < u32::MAX,
            None => true,
        } && fresh_entries(&plan.planned.live, next, self.active) && fresh_entries(
            &plan.planned.queued,
            next,
            self.active,
        );
        if plan.revision != self.revision || self.pending.is_some() || !fits {
            return Err(CompositionError::StalePlan);
        }
        if let Some(g) = plan.issued {
            self.next_instance_generation = g + 1;
        }
        let result = plan.planned.result;
        self.live = plan.planned.live;
        self.queued = plan.planned.queued;
        self.revision = bump(self.revision);
        Ok(result)
    }

    /// Commits a prepared overlay request.
    pub fn commit_overlay_request(&mut self, plan: CompositionPlan) -> (r: Result<OverlayAdmission, CompositionError>)
        requires
            old(self).wf(),
        ensures
            final(self).wf(),
            plan.view().outcome.result is Admission ==> ({
                let (res, st) = commit_composition_spec(old(self).state(), plan.view(), LIVE as int, MODALS as int);
                &&& final(self).state() == st
                &&& match res {
                    Ok(CompositionPlanResult::Admission(a)) => r == Ok::<OverlayAdmission, CompositionError>(a),
                    Err(e) => r == Err::<OverlayAdmission, CompositionError>(e),
                    _ => false,
                }
            }),
            !(plan.view().outcome.result is Admission) ==> r == Err::<OverlayAdmission, CompositionError>(
                CompositionError::StalePlan,
            ) && final(self).state() == old(self).state(),
    {
        if !matches!(plan.planned.result, CompositionPlanResult::Admission(_)) {
            return Err(CompositionError::StalePlan);
        }
        match self.apply_composition(plan) {
            Ok(CompositionPlanResult::Admission(a)) => Ok(a),
            Ok(CompositionPlanResult::Removal(_)) => Err(CompositionError::StalePlan),
            Err(e) => Err(e),
        }
    }

    /// Commits a prepared overlay removal (or any composition plan).
    pub fn commit_overlay_removal(&mut self, plan: CompositionPlan) -> (r: Result<CompositionPlanResult, CompositionError>)
        requires
            old(self).wf(),
        ensures
            final(self).wf(),
            (r, final(self).state()) == commit_composition_spec(old(self).state(), plan.view(), LIVE as int, MODALS as int),
    {
        self.apply_composition(plan)
    }

    /// Requests an overlay by the surface's own provider and commits it.
    pub fn request_overlay(
        &mut self,
        surface: SurfaceRef,
        input: OverlayInput,
        lifetime: OverlayLifetime,
        rank: u8,
    ) -> (r: Result<OverlayAdmission, CompositionError>)
        requires
            old(self).wf(),
        ensures
            final(self).wf(),
            match request_spec(old(self).state(), surface, input, lifetime, rank, surface.owner, LIVE as int, MODALS as int) {
                Err(e) => r == Err::<OverlayAdmission, CompositionError>(e) && final(self).state() == old(self).state(),
                Ok(v) => {
                    let (res, st) = commit_composition_spec(old(self).state(), v, LIVE as int, MODALS as int);
                    &&& final(self).state() == st
                    &&& match res {
                        Ok(CompositionPlanResult::Admission(a)) => r == Ok::<OverlayAdmission, CompositionError>(a),
                        Err(e) => r == Err::<OverlayAdmission, CompositionError>(e),
                        _ => false,
                    }
                },
            },
    {
        let plan = match self.prepare_overlay_request(surface, input, lifetime, rank) {
            Ok(plan) => plan,
            Err(e) => return Err(e),
        };
        self.commit_overlay_request(plan)
    }

    /// Removes the live or queued overlay `token`.
    pub fn remove_overlay(&mut self, token: SurfaceInstanceToken) -> (r: Result<OverlayDismissal, CompositionError>)
        requires
            old(self).wf(),
        ensures
            final(self).wf(),
            match removal_plan_spec(old(self).state(), token) {
                Err(e) => r == Err::<OverlayDismissal, CompositionError>(e) && final(self).state() == old(self).state(),
                Ok(v) => {
                    let (res, st) = commit_composition_spec(old(self).state(), v, LIVE as int, MODALS as int);
                    &&& final(self).state() == st
                    &&& match res {
                        Ok(CompositionPlanResult::Removal(d)) => r == Ok::<OverlayDismissal, CompositionError>(d),
                        Err(e) => r == Err::<OverlayDismissal, CompositionError>(e),
                        _ => false,
                    }
                },
            },
    {
        let plan = match self.prepare_overlay_removal(token) {
            Ok(plan) => plan,
            Err(e) => return Err(e),
        };
        proof {
            lemma_removal_plan_is_removal(self.state(), token);
        }
        match self.apply_composition(plan) {
            Ok(CompositionPlanResult::Removal(d)) => Ok(d),
            Ok(CompositionPlanResult::Admission(_)) => Err(CompositionError::StalePlan),
            Err(e) => Err(e),
        }
    }

    /// Dismisses the live modal.
    pub fn dismiss_active_modal(&mut self) -> (r: Result<OverlayDismissal, CompositionError>)
        requires
            old(self).wf(),
        ensures
            final(self).wf(),
            modal_index(old(self).state().live, 0) is None ==> r == Err::<OverlayDismissal, CompositionError>(
                CompositionError::NoActiveModal,
            ) && final(self).state() == old(self).state(),
            modal_index(old(self).state().live, 0) matches Some(m) ==> match removal_plan_spec(
                old(self).state(),
                old(self).state().live[m].instance.token,
            ) {
                Err(e) => r == Err::<OverlayDismissal, CompositionError>(e) && final(self).state() == old(self).state(),
                Ok(v) => {
                    let (res, st) = commit_composition_spec(old(self).state(), v, LIVE as int, MODALS as int);
                    &&& final(self).state() == st
                    &&& match res {
                        Ok(CompositionPlanResult::Removal(d)) => r == Ok::<OverlayDismissal, CompositionError>(d),
                        Err(e) => r == Err::<OverlayDismissal, CompositionError>(e),
                        _ => false,
                    }
                },
            },
    {
        match self.active_modal() {
            Some(modal) => self.remove_overlay(modal.token),
            None => Err(CompositionError::NoActiveModal),
        }
    }

    fn stack_has_owner(&self, owner: ProviderToken) -> (r: bool)
        ensures
            r == stack_owned_by(self.state().stack, owner),
    {
        let mut i: usize = 0;
        while i < self.stack.len()
            invariant
                i <= self.stack@.len(),
                forall|k: int| 0 <= k < i ==> !owned_by(#[trigger] self.stack@[k].surface, owner),
            decreases self.stack@.len() - i,
        {
            let s = self.stack[i].surface;
            if s.owner.id.0 == owner.id.0 && s.owner.generation.0 == owner.generation.0 {
                return true;
            }
            i = i + 1;
        }
        false
    }

    /// Prepares removing the provider `owner`.
    pub fn prepare_provider_removal(&self, owner: ProviderToken) -> (r: Result<ProviderRemovalPlan, ProviderRemovalError>)
        requires
            self.wf(),
        ensures
            match (r, removal_prepare_spec(self.state(), owner)) {
                (Ok(p), Ok(v)) => p.view() == v,
                (Err(a), Err(b)) => a == b,
                _ => false,
            },
    {
        if self.pending.is_some() {
            return Err(ProviderRemovalError::RemovalInProgress);
        }
        if owner == self.base {
            return Err(ProviderRemovalError::BaseProvider);
        }
        if !registered(&self.providers, owner) {
            return Err(ProviderRemovalError::UnknownProvider(owner));
        }
        let falls_back = self.stack_has_owner(owner);
        if falls_back && self.next_instance_generation == u32::MAX {
            return Err(ProviderRemovalError::GenerationExhausted);
        }
        let fallback = if falls_back {
            let home = self.stack[0];
            Some(
                FallbackTransition {
                    origin: self.active,
                    destination: home,
                    destination_instance: SurfaceInstanceToken {
                        surface: home.surface,
                        generation: InstanceGeneration(self.next_instance_generation),
                    },
                },
            )
        } else {
            None
        };
        let cleanup = plan_cleanup(&self.live, &self.queued, Some(owner), falls_back);
        Ok(ProviderRemovalPlan { revision: self.revision, owner, fallback, cleanup })
    }

    /// Detaches a planned removal: its overlay cleanup takes effect and the
    /// shell waits for the runtime audit.
    pub fn commit_provider_detach(&mut self, plan: ProviderRemovalPlan) -> (r: Result<
        PendingProviderRemoval,
        ProviderRemovalError,
    >)
        requires
            old(self).wf(),
        ensures
            final(self).wf(),
            (r, final(self).state()) == detach_spec(old(self).state(), plan.view(), LIVE as int, MODALS as int),
    {
        let fits = plan.cleanup.live.len() <= LIVE && plan.cleanup.queued.len() <= MODALS && match plan.fallback {
            Some(f) => f.destination_instance.surface == self.stack[0].surface
                && f.destination_instance.generation.0 == self.next_instance_generation
                && self.next_instance_generation < u32::MAX,
            None => true,
        } && fresh_entries(&plan.cleanup.live, self.next_instance_generation, self.active) && fresh_entries(
            &plan.cleanup.queued,
            self.next_instance_generation,
            self.active,
        );
        if plan.revision != self.revision || self.pending.is_some() || !fits {
            return Err(ProviderRemovalError::StalePlan);
        }
        let st = PendingRemovalState {
            owner: plan.owner,
            fallback: plan.fallback,
            live_overlays: plan.cleanup.delta.leave.len(),
            queued_modals: plan.cleanup.delta.dropped.len(),
        };
        self.live = plan.cleanup.live;
        self.queued = plan.cleanup.queued;
        self.pending = Some(st);
        self.revision = bump(self.revision);
        Ok(PendingProviderRemoval { state: st })
    }

    /// Finalizes a detached removal once the runtime audit confirms it.
    pub fn finalize_provider_removal(&mut self, pending: &PendingProviderRemoval, audit: ProviderRuntimeAudit) -> (r:
        Result<ProviderPurge, ProviderRemovalError>)
        requires
            old(self).wf(),
        ensures
            final(self).wf(),
            (r, final(self).state()) == finalize_spec(old(self).state(), *pending, audit),
    {
        if self.pending != Some(pending.state) {
            return Err(ProviderRemovalError::NoPendingRemoval);
        }
        if audit.owner != pending.state.owner {
            return Err(ProviderRemovalError::RuntimeAuditMismatch);
        }
        let owner = pending.state.owner;
        let ghost s0 = self.state();
        let defs_before = self.definitions.len();
        let mut defs: Vec<SurfaceDefinition> = Vec::new();
        let mut i: usize = 0;
        while i < self.definitions.len()
            invariant
                i <= self.definitions@.len(),
                defs@ == self.definitions@.take(i as int).filter(def_survives(owner)),
            decreases self.definitions@.len() - i,
        {
            let d = self.definitions[i];
            proof {
                assert(self.definitions@.take(i + 1) =~= self.definitions@.take(i as int).push(d));
                self.definitions@.take(i as int).lemma_filter_push(d, def_survives(owner));
            }
            if !(d.surface.owner.id.0 == owner.id.0 && d.surface.owner.generation.0 == owner.generation.0) {
                defs.push(d);
            }
            i = i + 1;
        }
        proof {
            assert(self.definitions@.take(self.definitions@.len() as int) =~= self.definitions@);
            self.definitions@.lemma_filter_len(def_survives(owner));
        }
        let mut providers: Vec<ProviderToken> = Vec::new();
        let mut j: usize = 0;
        while j < self.providers.len()
            invariant
                j <= self.providers@.len(),
                providers@ == self.providers@.take(j as int).filter(provider_survives(owner)),
            decreases self.providers@.len() - j,
        {
            let p = self.providers[j];
            proof {
                assert(self.providers@.take(j + 1) =~= self.providers@.take(j as int).push(p));
                self.providers@.take(j as int).lemma_filter_push(p, provider_survives(owner));
            }
            if p != owner {
                providers.push(p);
            }
            j = j + 1;
        }
        proof {
            assert(self.providers@.take(self.providers@.len() as int) =~= self.providers@);
        }
        let removed_definitions = defs_before - defs.len();
        self.definitions = defs;
        self.providers = providers;
        let queued_intents = self.intents.purge_provider(owner);
        let navigation = match pending.state.fallback {
            Some(f) => {
                let home = self.stack[0];
                let removed_frames = self.stack.len() - 1;
                let mut stack: Vec<SurfaceDefinition> = Vec::new();
                stack.push(home);
                assert(stack@ =~= seq![s0.stack[0]]);
                self.stack = stack;
                self.active = f.destination_instance;
                self.next_instance_generation = f.destination_instance.generation.0 + 1;
                NavigationPurge { removed_frames, active_changed: true }
            },
            None => NavigationPurge { removed_frames: 0, active_changed: false },
        };
        self.pending = None;
        self.revision = bump(self.revision);
        Ok(
            ProviderPurge {
                definitions: removed_definitions,
                navigation,
                composition: CompositionPurge {
                    live_overlays: pending.state.live_overlays,
                    queued_modals: pending.state.queued_modals,
                },
                queued_intents,
            },
        )
    }

    /// Removes a provider in one step: detaches the plan and finalizes it
    /// with the runtime's confirmation.
    pub fn commit_provider_removal(&mut self, plan: ProviderRemovalPlan) -> (r: Result<
        ProviderPurge,
        ProviderRemovalError,
    >)
        requires
            old(self).wf(),
        ensures
            final(self).wf(),
            ({
                let (d, s1) = detach_spec(old(self).state(), plan.view(), LIVE as int, MODALS as int);
                match d {
                    Err(e) => r == Err::<ProviderPurge, ProviderRemovalError>(e) && final(self).state() == s1,
                    Ok(h) => (r, final(self).state()) == finalize_spec(s1, h, ProviderRuntimeAudit { owner: h.state.owner }),
                }
            }),
    {
        let pending = match self.commit_provider_detach(plan) {
            Ok(p) => p,
            Err(e) => return Err(e),
        };
        let audit = ProviderRuntimeAudit::verified(pending.owner());
        self.finalize_provider_removal(&pending, audit)
    }

    /// Prepares removing every transient overlay.
    pub fn prepare_transient_overlay_removal(&self) -> (r: Result<TransientRemovalPlan, CompositionError>)
        ensures
            self.state().pending is Some ==> r == Err::<TransientRemovalPlan, _>(
                CompositionError::ProviderRemovalInProgress,
            ),
            self.state().pending is None ==> (r matches Ok(p) && p.revision() == self.state().revision && p.content()
                == cleanup_spec(self.state().live, self.state().queued, None, true)),
    {
        if self.pending.is_some() {
            return Err(CompositionError::ProviderRemovalInProgress);
        }
        Ok(TransientRemovalPlan { revision: self.revision, cleanup: plan_cleanup(&self.live, &self.queued, None, true) })
    }

    /// Commits a prepared transient removal.
    pub fn commit_transient_overlay_removal(&mut self, plan: TransientRemovalPlan) -> (r: Result<(), CompositionError>)
        requires
            old(self).wf(),
        ensures
            final(self).wf(),
            (r, final(self).state()) == commit_transient_spec(
                old(self).state(),
                plan.revision(),
                plan.content(),
                LIVE as int,
                MODALS as int,
            ),
    {
        if plan.revision != self.revision || self.pending.is_some() || plan.cleanup.live.len() > LIVE
            || plan.cleanup.queued.len() > MODALS || !fresh_entries(
            &plan.cleanup.live,
            self.next_instance_generation,
            self.active,
        ) || !fresh_entries(&plan.cleanup.queued, self.next_instance_generation, self.active) {
            return Err(CompositionError::StalePlan);
        }
        self.live = plan.cleanup.live;
        self.queued = plan.cleanup.queued;
        self.revision = bump(self.revision);
        Ok(())
    }

    /// Whether `token` is a live instance.
    fn instance_is_live(&self, token: SurfaceInstanceToken) -> (r: bool)
        ensures
            r == is_live_instance(self.state(), token),
    {
        token == self.active || token_position(&self.live, token).is_some()
    }

    /// Queues a navigation intent from a live instance.
    pub fn queue_intent(&mut self, intent: OwnedNavIntent) -> (r: Result<(), IntentQueueError>)
        requires
            old(self).wf(),
        ensures
            final(self).wf(),
            r == queue_intent_spec(old(self).state(), intent, INTENTS as int),
            r is Ok ==> final(self).state() == with_intents(
                old(self).state(),
                old(self).state().intents.push(intent),
            ),
            r is Err ==> final(self).state() == old(self).state(),
    {
        if self.pending.is_some() {
            return Err(IntentQueueError::ProviderRemovalInProgress);
        }
        if !registered(&self.providers, intent.source.surface.owner) {
            return Err(IntentQueueError::InvalidOwner);
        }
        if !self.instance_is_live(intent.source) {
            return Err(IntentQueueError::StaleInstance);
        }
        match self.intents.push(intent) {
            Ok(()) => {
                self.revision = bump(self.revision);
                Ok(())
            },
            Err(e) => Err(e),
        }
    }

    /// Takes the oldest queued navigation intent.
    pub fn pop_intent(&mut self) -> (r: Option<OwnedNavIntent>)
        requires
            old(self).wf(),
        ensures
            final(self).wf(),
            old(self).state().intents.len() == 0 ==> r is None && final(self).state() == old(self).state(),
            old(self).state().intents.len() > 0 ==> r == Some(old(self).state().intents[0]) && final(self).state()
                == with_intents(old(self).state(), old(self).state().intents.drop_first()),
    {
        let r = self.intents.pop();
        if r.is_some() {
            self.revision = bump(self.revision);
        }
        r
    }
}

/// A removal plan always plans a removal.
proof fn lemma_removal_plan_is_removal(s: ShellState, token: SurfaceInstanceToken)
    ensures
        removal_plan_spec(s, token) matches Ok(v) ==> v.outcome.result is Removal,
{
}

} // verus!
