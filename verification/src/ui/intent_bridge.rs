//! The bridge from UI callbacks to shell intents: routed bindings, the
//! queue of raised intents and the one-shot request flags.
use vstd::prelude::*;

use crate::shell::callback_action_queue::{action_refers, CallbackActionQueue};
use crate::shell::callback_routes::{
    live_spec, resolve_spec, route_encoding_ok, CallbackRoute, CallbackRouteError, CallbackRouteTable,
};
use crate::shell::types::{
    shell_intent_references, CompositionIntent, NavIntent, OwnedCompositionIntent, OwnedNavIntent,
    OwnedRefreshIntent, OwnedShellIntent, OwnedUiSettingsIntent, ProviderToken, SurfaceInstanceToken,
    UiSettingsIntent,
};

verus! {

/// Callback bindings that may be live at once: origin and destination
/// screens, departing and promoted modals, and the sticky refresh control.
pub const CALLBACK_BINDING_CAPACITY: usize = 5;
/// Navigation slots of a screen: one per catalogue entry, plus home and back.
pub const SCREEN_NAVIGATION_CAPACITY: usize = 10;
pub const HOME_NAVIGATION_INDEX: usize = 8;
pub const BACK_NAVIGATION_INDEX: usize = 9;

/// What a screen button asks for.
#[derive(Clone, Copy, Debug, Eq, PartialEq, Structural)]
pub enum ScreenAction {
    Navigate(NavIntent),
    Configure(UiSettingsIntent),
}

/// What the callbacks of one UI object may raise.
#[derive(Clone, Copy, Debug)]
pub enum IntentBindings {
    Screen { source: SurfaceInstanceToken, actions: [Option<ScreenAction>; 10], show_confirm: CompositionIntent },
    Modal { dismiss: OwnedCompositionIntent },
    Refresh { request: OwnedRefreshIntent },
}

/// The intent a screen action raises from `source`.
pub open spec fn action_intent(source: SurfaceInstanceToken, action: ScreenAction) -> OwnedShellIntent {
    match action {
        ScreenAction::Navigate(intent) => OwnedShellIntent::Navigate(OwnedNavIntent { source, intent }),
        ScreenAction::Configure(intent) => OwnedShellIntent::Configure(OwnedUiSettingsIntent { source, intent }),
    }
}

/// Whether any intent the bindings can raise comes from or names `owner`.
pub open spec fn bindings_reference(b: IntentBindings, owner: ProviderToken) -> bool {
    match b {
        IntentBindings::Screen { source, actions, show_confirm } => {
            ||| source.surface.owner == owner
            ||| exists|k: int| 0 <= k < 10 && (#[trigger] actions@[k]) is Some && shell_intent_references(
                action_intent(source, actions@[k]->0),
                owner,
            )
            ||| shell_intent_references(
                OwnedShellIntent::Compose(OwnedCompositionIntent { source, intent: show_confirm }),
                owner,
            )
        },
        IntentBindings::Modal { dismiss } => shell_intent_references(OwnedShellIntent::Compose(dismiss), owner),
        IntentBindings::Refresh { request } => shell_intent_references(OwnedShellIntent::Refresh(request), owner),
    }
}

fn screen_action_intent(source: SurfaceInstanceToken, action: ScreenAction) -> (r: OwnedShellIntent)
    ensures
        r == action_intent(source, action),
{
    match action {
        ScreenAction::Navigate(intent) => OwnedShellIntent::Navigate(OwnedNavIntent { source, intent }),
        ScreenAction::Configure(intent) => OwnedShellIntent::Configure(OwnedUiSettingsIntent { source, intent }),
    }
}

impl IntentBindings {
    /// Whether any intent these bindings can raise comes from or names `owner`.
    pub fn references_provider(self, owner: ProviderToken) -> (r: bool)
        ensures
            r == bindings_reference(self, owner),
    {
        match self {
            IntentBindings::Screen { source, actions, show_confirm } => {
                if source.surface.owner == owner {
                    return true;
                }
                let mut k: usize = 0;
                while k < 10
                    invariant
                        k <= 10,
                        self == (IntentBindings::Screen { source, actions, show_confirm }),
                        forall|j: int| 0 <= j < k && (#[trigger] actions@[j]) is Some ==> !shell_intent_references(
                            action_intent(source, actions@[j]->0),
                            owner,
                        ),
                    decreases 10 - k,
                {
                    if let Some(action) = actions[k] {
                        if screen_action_intent(source, action).references_provider(owner) {
                            assert(actions@[k as int] == Some(action));
                            assert(shell_intent_references(action_intent(source, actions@[k as int]->0), owner));
                            return true;
                        }
                    }
                    k = k + 1;
                }
                OwnedShellIntent::Compose(OwnedCompositionIntent { source, intent: show_confirm }).references_provider(owner)
            },
            IntentBindings::Modal { dismiss } => OwnedShellIntent::Compose(dismiss).references_provider(owner),
            IntentBindings::Refresh { request } => OwnedShellIntent::Refresh(request).references_provider(owner),
        }
    }
}

/// Which kind of callback fired.
#[derive(Clone, Copy, Debug, Eq, PartialEq, Structural)]
pub enum CallbackKind {
    /// A screen's navigation button with this action index.
    Navigation(usize),
    ShowConfirm,
    DismissModal,
    FullRepaint,
}

/// The intent a callback of `kind` raises through `b`, if that kind of
/// callback belongs to those bindings.
pub open spec fn select_spec(b: IntentBindings, kind: CallbackKind) -> Option<OwnedShellIntent> {
    match (kind, b) {
        (CallbackKind::Navigation(index), IntentBindings::Screen { source, actions, .. }) => if index < 10
            && actions@[index as int] is Some {
            Some(action_intent(source, actions@[index as int]->0))
        } else {
            None
        },
        (CallbackKind::ShowConfirm, IntentBindings::Screen { source, show_confirm, .. }) => Some(
            OwnedShellIntent::Compose(OwnedCompositionIntent { source, intent: show_confirm }),
        ),
        (CallbackKind::DismissModal, IntentBindings::Modal { dismiss }) => Some(OwnedShellIntent::Compose(dismiss)),
        (CallbackKind::FullRepaint, IntentBindings::Refresh { request }) => Some(OwnedShellIntent::Refresh(request)),
        _ => None,
    }
}

/// Every navigation slot of a screen is reachable: a navigation callback
/// with index below `SCREEN_NAVIGATION_CAPACITY` (the catalogue entries,
/// then home at `HOME_NAVIGATION_INDEX` and back at `BACK_NAVIGATION_INDEX`)
/// raises the intent of the action bound in that slot, from the screen;
/// an empty slot or an index past the slots raises nothing.
pub proof fn lemma_navigation_slot_raises_its_action(
    source: SurfaceInstanceToken,
    actions: [Option<ScreenAction>; 10],
    show_confirm: CompositionIntent,
    index: usize,
)
    ensures
        index < SCREEN_NAVIGATION_CAPACITY && actions@[index as int] is Some ==> select_spec(
            IntentBindings::Screen { source, actions, show_confirm },
            CallbackKind::Navigation(index),
        ) == Some(action_intent(source, actions@[index as int]->0)),
        index >= SCREEN_NAVIGATION_CAPACITY || actions@[index as int] is None ==> select_spec(
            IntentBindings::Screen { source, actions, show_confirm },
            CallbackKind::Navigation(index),
        ) is None,
        actions@[HOME_NAVIGATION_INDEX as int] is Some ==> select_spec(
            IntentBindings::Screen { source, actions, show_confirm },
            CallbackKind::Navigation(HOME_NAVIGATION_INDEX),
        ) == Some(action_intent(source, actions@[HOME_NAVIGATION_INDEX as int]->0)),
        actions@[BACK_NAVIGATION_INDEX as int] is Some ==> select_spec(
            IntentBindings::Screen { source, actions, show_confirm },
            CallbackKind::Navigation(BACK_NAVIGATION_INDEX),
        ) == Some(action_intent(source, actions@[BACK_NAVIGATION_INDEX as int]->0)),
{
}

/// The other callbacks: a screen's confirm button composes the screen's
/// confirm intent from that screen, a modal's dismiss callback raises its
/// dismiss intent, the refresh control its refresh request; a callback of
/// a kind the bindings do not have raises nothing.
pub proof fn lemma_callback_kinds_raise_their_intents(b: IntentBindings, kind: CallbackKind)
    ensures
        b matches IntentBindings::Screen { source, show_confirm, .. } ==> select_spec(b, CallbackKind::ShowConfirm)
            == Some(OwnedShellIntent::Compose(OwnedCompositionIntent { source, intent: show_confirm })),
        b matches IntentBindings::Modal { dismiss } ==> select_spec(b, CallbackKind::DismissModal) == Some(
            OwnedShellIntent::Compose(dismiss),
        ),
        b matches IntentBindings::Refresh { request } ==> select_spec(b, CallbackKind::FullRepaint) == Some(
            OwnedShellIntent::Refresh(request),
        ),
        !(b is Screen) && (kind is Navigation || kind is ShowConfirm) ==> select_spec(b, kind) is None,
        !(b is Modal) && kind is DismissModal ==> select_spec(b, kind) is None,
        !(b is Refresh) && kind is FullRepaint ==> select_spec(b, kind) is None,
{
}

/// A screen's Back button bound to back navigation raises back navigation
/// from that screen.
pub proof fn lemma_back_button_navigates_back(
    source: SurfaceInstanceToken,
    actions: [Option<ScreenAction>; 10],
    show_confirm: CompositionIntent,
)
    requires
        actions@[BACK_NAVIGATION_INDEX as int] == Some(ScreenAction::Navigate(NavIntent::Back)),
    ensures
        select_spec(
            IntentBindings::Screen { source, actions, show_confirm },
            CallbackKind::Navigation(BACK_NAVIGATION_INDEX),
        ) == Some(OwnedShellIntent::Navigate(OwnedNavIntent { source, intent: NavIntent::Back })),
{
}

/// The intent a callback of `kind` raises through `bindings`.
pub fn select_intent(bindings: IntentBindings, kind: CallbackKind) -> (r: Option<OwnedShellIntent>)
    ensures
        r == select_spec(bindings, kind),
{
    match (kind, bindings) {
        (CallbackKind::Navigation(index), IntentBindings::Screen { source, actions, .. }) => {
            if index < 10 {
                match actions[index] {
                    Some(action) => Some(screen_action_intent(source, action)),
                    None => None,
                }
            } else {
                None
            }
        },
        (CallbackKind::ShowConfirm, IntentBindings::Screen { source, show_confirm, .. }) => Some(
            OwnedShellIntent::Compose(OwnedCompositionIntent { source, intent: show_confirm }),
        ),
        (CallbackKind::DismissModal, IntentBindings::Modal { dismiss }) => Some(OwnedShellIntent::Compose(dismiss)),
        (CallbackKind::FullRepaint, IntentBindings::Refresh { request }) => Some(OwnedShellIntent::Refresh(request)),
        _ => None,
    }
}

/// A claimed callback route, owned by the UI object that registered it.
#[derive(Debug, Eq, PartialEq)]
pub struct CallbackLease {
    pub route: CallbackRoute,
}

impl CallbackLease {
    /// The value stored as the object's callback user data.
    pub fn user_data(&self) -> (r: u32)
        ensures
            r == self.route.bits(),
            route_encoding_ok(r),
    {
        self.route.encoded()
    }
}

/// The user data of navigation button `index`: never zero.
pub fn action_user_data(index: usize) -> (r: usize)
    requires
        index < usize::MAX,
    ensures
        r == index + 1,
{
    index + 1
}

/// The bridge state: bindings by route, raised intents in order, and the
/// one-shot flags.
pub struct CallbackBridge<const B: usize, const Q: usize> {
    pub routes: CallbackRouteTable<IntentBindings, B>,
    pub intents: CallbackActionQueue<Q>,
    pub overflowed: bool,
    pub full_repaint_requested: bool,
    pub ambient_tap_requested: bool,
}

impl<const B: usize, const Q: usize> CallbackBridge<B, Q> {
    /// No bindings, no intents, no flags.
    pub fn new() -> (r: Self)
        ensures
            r.routes.wf(),
            r.intents.queued().len() == 0,
            !r.overflowed && !r.full_repaint_requested && !r.ambient_tap_requested,
    {
        CallbackBridge {
            routes: CallbackRouteTable::new(),
            intents: CallbackActionQueue::new(),
            overflowed: false,
            full_repaint_requested: false,
            ambient_tap_requested: false,
        }
    }

    /// Claims a route for `bindings`; the route starts disabled.
    pub fn claim(&mut self, bindings: IntentBindings) -> (r: Result<CallbackLease, CallbackRouteError>)
        requires
            old(self).routes.wf(),
        ensures
            final(self).routes.wf(),
            final(self).intents == old(self).intents,
            final(self).overflowed == old(self).overflowed,
            final(self).full_repaint_requested == old(self).full_repaint_requested,
            final(self).ambient_tap_requested == old(self).ambient_tap_requested,
            ({
                let (res, s) = crate::shell::callback_routes::claim_spec(old(self).routes.slots_view(), B as int, bindings);
                &&& final(self).routes.slots_view() == s
                &&& match (r, res) {
                    (Ok(lease), Ok(e)) => lease.route.bits() == e,
                    (Err(a), Err(b)) => a == b,
                    _ => false,
                }
            }),
    {
        match self.routes.claim(bindings) {
            Ok(route) => Ok(CallbackLease { route }),
            Err(e) => Err(e),
        }
    }

    /// Lets the lease's callbacks raise intents.
    pub fn enable(&mut self, lease: &CallbackLease) -> (r: Result<(), CallbackRouteError>)
        requires
            old(self).routes.wf(),
        ensures
            final(self).routes.wf(),
            final(self).intents == old(self).intents,
            live_spec(old(self).routes.slots_view(), lease.route.bits()) ==> r is Ok,
            !live_spec(old(self).routes.slots_view(), lease.route.bits()) ==> r is Err,
            live_spec(old(self).routes.slots_view(), lease.route.bits()) ==> final(self).routes.slots_view()
                == crate::shell::callback_routes::set_enabled_spec(old(self).routes.slots_view(), lease.route.bits(), true),
            !live_spec(old(self).routes.slots_view(), lease.route.bits()) ==> final(self).routes.slots_view()
                == old(self).routes.slots_view(),
    {
        self.routes.enable(lease.route)
    }

    /// Stops the lease's callbacks from raising intents.
    pub fn disable(&mut self, lease: &CallbackLease) -> (r: Result<(), CallbackRouteError>)
        requires
            old(self).routes.wf(),
        ensures
            final(self).routes.wf(),
            final(self).intents == old(self).intents,
            live_spec(old(self).routes.slots_view(), lease.route.bits()) ==> r is Ok,
            !live_spec(old(self).routes.slots_view(), lease.route.bits()) ==> r is Err,
            live_spec(old(self).routes.slots_view(), lease.route.bits()) ==> final(self).routes.slots_view()
                == crate::shell::callback_routes::set_enabled_spec(old(self).routes.slots_view(), lease.route.bits(), false),
            !live_spec(old(self).routes.slots_view(), lease.route.bits()) ==> final(self).routes.slots_view()
                == old(self).routes.slots_view(),
    {
        self.routes.disable(lease.route)
    }

    /// Frees the lease's route.
    pub fn release(&mut self, lease: &CallbackLease) -> (r: Result<(), CallbackRouteError>)
        requires
            old(self).routes.wf(),
        ensures
            final(self).routes.wf(),
            final(self).intents == old(self).intents,
            live_spec(old(self).routes.slots_view(), lease.route.bits()) ==> r is Ok,
            !live_spec(old(self).routes.slots_view(), lease.route.bits()) ==> r is Err,
            live_spec(old(self).routes.slots_view(), lease.route.bits()) ==> final(self).routes.slots_view()
                == crate::shell::callback_routes::release_spec(old(self).routes.slots_view(), lease.route.bits()),
            !live_spec(old(self).routes.slots_view(), lease.route.bits()) ==> final(self).routes.slots_view()
                == old(self).routes.slots_view(),
    {
        self.routes.release(lease.route)
    }

    /// Takes the oldest raised intent.
    pub fn take_intent(&mut self) -> (r: Option<OwnedShellIntent>)
        ensures
            old(self).intents.queued().len() == 0 ==> r is None && final(self).intents.queued()
                == old(self).intents.queued(),
            old(self).intents.queued().len() > 0 ==> r == Some(old(self).intents.queued()[0])
                && final(self).intents.queued() == old(self).intents.queued().drop_first(),
            final(self).routes == old(self).routes,
    {
        self.intents.pop()
    }

    /// Drops the raised intents of instance `source`; returns how many.
    pub fn purge_instance(&mut self, source: SurfaceInstanceToken) -> (r: usize)
        ensures
            final(self).intents.queued() == old(self).intents.queued().filter(
                crate::shell::callback_action_queue::action_not_from(source),
            ),
            r == old(self).intents.queued().len() - final(self).intents.queued().len(),
            final(self).routes == old(self).routes,
    {
        self.intents.purge_instance(source)
    }

    /// Drops the raised intents that come from or name `owner`; returns how
    /// many.
    pub fn purge_provider(&mut self, owner: ProviderToken) -> (r: usize)
        ensures
            final(self).intents.queued() == old(self).intents.queued().filter(
                crate::shell::callback_action_queue::action_survives(owner),
            ),
            r == old(self).intents.queued().len() - final(self).intents.queued().len(),
            final(self).routes == old(self).routes,
    {
        self.intents.purge_provider(owner)
    }

    /// Number of raised intents that come from or name `owner`.
    pub fn queued_provider_action_count(&self, owner: ProviderToken) -> (r: usize)
        ensures
            r == self.intents.queued().filter(action_refers(owner)).len(),
    {
        self.intents.provider_reference_count(owner)
    }

    /// Whether a raised intent or a claimed binding comes from or names
    /// `owner`.
    pub fn references_provider(&self, owner: ProviderToken) -> (r: bool)
        ensures
            r == (self.intents.queued().filter(action_refers(owner)).len() != 0 || exists|i: int|
                0 <= i < self.routes.slots_view().len() && (#[trigger] self.routes.slots_view()[i]).value is Some
                    && bindings_reference(self.routes.slots_view()[i].value->0, owner)),
    {
        if self.intents.references_provider(owner) {
            return true;
        }
        self.routes.any_value(|bindings: IntentBindings| -> (r: bool)
            ensures
                r == bindings_reference(bindings, owner),
            { bindings.references_provider(owner) })
    }

    /// Consumes the queue-overflow flag.
    pub fn take_overflowed(&mut self) -> (r: bool)
        ensures
            r == old(self).overflowed,
            !final(self).overflowed,
            final(self).routes == old(self).routes,
            final(self).intents == old(self).intents,
            final(self).full_repaint_requested == old(self).full_repaint_requested,
            final(self).ambient_tap_requested == old(self).ambient_tap_requested,
    {
        let r = self.overflowed;
        self.overflowed = false;
        r
    }

    /// Consumes a pending full-repaint request.
    pub fn take_full_repaint_request(&mut self) -> (r: bool)
        ensures
            r == old(self).full_repaint_requested,
            !final(self).full_repaint_requested,
            final(self).routes == old(self).routes,
            final(self).intents == old(self).intents,
            final(self).overflowed == old(self).overflowed,
            final(self).ambient_tap_requested == old(self).ambient_tap_requested,
    {
        let r = self.full_repaint_requested;
        self.full_repaint_requested = false;
        r
    }

    /// Requests a full repaint.
    pub fn mark_full_repaint_requested(&mut self)
        ensures
            final(self).full_repaint_requested,
            final(self).routes == old(self).routes,
            final(self).intents == old(self).intents,
            final(self).overflowed == old(self).overflowed,
            final(self).ambient_tap_requested == old(self).ambient_tap_requested,
    {
        self.full_repaint_requested = true;
    }

    /// Consumes a pending Ambient Home background tap.
    pub fn take_ambient_tap_requested(&mut self) -> (r: bool)
        ensures
            r == old(self).ambient_tap_requested,
            !final(self).ambient_tap_requested,
            final(self).routes == old(self).routes,
            final(self).intents == old(self).intents,
            final(self).overflowed == old(self).overflowed,
            final(self).full_repaint_requested == old(self).full_repaint_requested,
    {
        let r = self.ambient_tap_requested;
        self.ambient_tap_requested = false;
        r
    }

    /// Records an Ambient Home background tap.
    pub fn ambient_tap_callback(&mut self)
        ensures
            final(self).ambient_tap_requested,
            final(self).routes == old(self).routes,
            final(self).intents == old(self).intents,
            final(self).overflowed == old(self).overflowed,
            final(self).full_repaint_requested == old(self).full_repaint_requested,
    {
        self.ambient_tap_requested = true;
    }

    /// A callback of `kind` fired with user data `encoded`: a well-formed,
    /// live and enabled route raises the selected intent, which is queued;
    /// a full queue sets the overflow flag instead.
    pub fn enqueue(&mut self, encoded: u32, kind: CallbackKind)
        ensures
            final(self).routes == old(self).routes,
            final(self).full_repaint_requested == old(self).full_repaint_requested,
            final(self).ambient_tap_requested == old(self).ambient_tap_requested,
            ({
                let raised = if route_encoding_ok(encoded) {
                    match resolve_spec(old(self).routes.slots_view(), encoded) {
                        Some(b) => select_spec(b, kind),
                        None => None,
                    }
                } else {
                    None
                };
                match raised {
                    None => final(self).intents == old(self).intents && final(self).overflowed == old(self).overflowed,
                    Some(intent) => if old(self).intents.queued().len() < Q {
                        final(self).intents.queued() == old(self).intents.queued().push(intent)
                            && final(self).overflowed == old(self).overflowed
                    } else {
                        final(self).intents.queued() == old(self).intents.queued() && final(self).overflowed
                    },
                }
            }),
    {
        let route = match CallbackRoute::from_encoded(encoded) {
            Some(route) => route,
            None => return,
        };
        let bindings = match self.routes.resolve(route) {
            Some(b) => b,
            None => return,
        };
        let intent = match select_intent(bindings, kind) {
            Some(i) => i,
            None => return,
        };
        if self.intents.push(intent).is_err() {
            self.overflowed = true;
        }
    }
}

} // verus!
