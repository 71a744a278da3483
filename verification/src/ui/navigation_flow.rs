//! The decisions the LVGL backend takes while draining shell navigation:
//! whether the queue is drained at all, how each intent is carried out, how
//! a rolled-back transition settles, and where the persisted start-up entry
//! leads. The backend performs the screen
//! work; these functions say what it is.
use vstd::prelude::*;

use crate::shell::catalogue::{badge_spec, find_id, CatalogueAction, CatalogueBadge, CompiledCatalogue, EntryId};
use crate::shell::types::{SurfaceInstanceToken, SurfaceRef};

verus! {

/// Whether queued navigation is refused wholesale: after a navigation or
/// composition fault, or while a surface or overlay cleanup is blocked.
pub fn navigation_blocked(
    navigation_faulted: bool,
    composition_faulted: bool,
    cleanup_blocked: bool,
    overlay_cleanup_blocked: bool,
) -> (r: bool)
    ensures
        r == (navigation_faulted || composition_faulted || cleanup_blocked || overlay_cleanup_blocked),
{
    navigation_faulted || composition_faulted || cleanup_blocked || overlay_cleanup_blocked
}

/// How one queued navigation intent is carried out.
#[derive(Clone, Copy, Debug, PartialEq, Eq, Structural)]
pub enum IntentDisposition {
    /// A modal is up: navigation waits for it, the intent is dropped.
    RejectModalActive,
    /// The shell refused to prepare it.
    RejectPrepare,
    /// The destination keeps the running instance: commit without
    /// recreating the screen.
    CommitInPlace,
    /// The destination needs a new instance: run the screen transition.
    Transition,
    /// There is no running screen to transition from.
    MissingActiveFault,
}

/// The disposition of an intent, given whether a modal is live, whether
/// the shell prepared it, the running instance, and the instance the plan
/// lands on.
pub open spec fn disposition_spec(
    modal_live: bool,
    prepared: bool,
    active: Option<SurfaceInstanceToken>,
    destination_instance: SurfaceInstanceToken,
) -> IntentDisposition {
    if modal_live {
        IntentDisposition::RejectModalActive
    } else if !prepared {
        IntentDisposition::RejectPrepare
    } else {
        match active {
            Some(a) => if a == destination_instance {
                IntentDisposition::CommitInPlace
            } else {
                IntentDisposition::Transition
            },
            None => IntentDisposition::MissingActiveFault,
        }
    }
}

/// Decides how a popped navigation intent is carried out.
pub fn intent_disposition(
    modal_live: bool,
    prepared: bool,
    active: Option<SurfaceInstanceToken>,
    destination_instance: SurfaceInstanceToken,
) -> (r: IntentDisposition)
    ensures
        r == disposition_spec(modal_live, prepared, active, destination_instance),
{
    if modal_live {
        return IntentDisposition::RejectModalActive;
    }
    if !prepared {
        return IntentDisposition::RejectPrepare;
    }
    match active {
        Some(a) => if a == destination_instance {
            IntentDisposition::CommitInPlace
        } else {
            IntentDisposition::Transition
        },
        None => IntentDisposition::MissingActiveFault,
    }
}

/// How a rolled-back transition settles.
#[derive(Clone, Copy, Debug, PartialEq, Eq, Structural)]
pub enum RollbackSettlement {
    /// The origin screen is back; navigation is faulted when a cleanup is
    /// still blocked or the cleanup audit failed.
    RestoreOrigin { navigation_faulted: bool },
    /// The origin could not be restored but nothing is stuck: recover by
    /// recreating the ambient home screen.
    RecoverAmbient,
    /// The origin is gone and a cleanup is stuck: keep what runs and fault.
    Fault,
}

/// The settlement of a rollback.
pub open spec fn settlement_spec(origin_restored: bool, cleanup_blocked: bool, cleanup_audit_failed: bool) -> RollbackSettlement {
    if origin_restored {
        RollbackSettlement::RestoreOrigin { navigation_faulted: cleanup_blocked || cleanup_audit_failed }
    } else if !cleanup_blocked && !cleanup_audit_failed {
        RollbackSettlement::RecoverAmbient
    } else {
        RollbackSettlement::Fault
    }
}

/// Decides how a rolled-back transition settles.
pub fn settle_rolled_back(origin_restored: bool, cleanup_blocked: bool, cleanup_audit_failed: bool) -> (r:
    RollbackSettlement)
    ensures
        r == settlement_spec(origin_restored, cleanup_blocked, cleanup_audit_failed),
{
    if origin_restored {
        RollbackSettlement::RestoreOrigin { navigation_faulted: cleanup_blocked || cleanup_audit_failed }
    } else if !cleanup_blocked && !cleanup_audit_failed {
        RollbackSettlement::RecoverAmbient
    } else {
        RollbackSettlement::Fault
    }
}

/// The surface a persisted start-up entry leads to: the entry's surface
/// when the entry is listed, ready and has one; otherwise none, and the
/// device stays on its home screen.
pub open spec fn startup_destination_spec<const C: usize>(catalogue: CompiledCatalogue<C>, id: Option<EntryId>) -> Option<
    SurfaceRef,
> {
    match id {
        None => None,
        Some(id) => match find_id(catalogue.listed(), id, 0) {
            Some(k) => {
                let e = catalogue.listed()[k];
                if badge_spec(e) == CatalogueBadge::Ready && e.surface is Some {
                    e.surface
                } else {
                    None
                }
            },
            None => None,
        },
    }
}

/// Finds the surface a persisted start-up entry leads to.
pub fn startup_destination<const C: usize>(catalogue: &CompiledCatalogue<C>, id: Option<EntryId>) -> (r: Option<
    SurfaceRef,
>)
    ensures
        r == startup_destination_spec(*catalogue, id),
{
    match id {
        None => None,
        Some(id) => match catalogue.entry(id) {
            Some(entry) => match entry.action() {
                CatalogueAction::Enter(surface) => Some(surface),
                CatalogueAction::Unavailable(_) => None,
            },
            None => None,
        },
    }
}

/// Whether a start-up route landed: the running surface is the
/// destination and can be drawn. When it did not, the device returns home.
pub fn startup_landed(active: SurfaceRef, destination: SurfaceRef, renderable: bool) -> (r: bool)
    ensures
        r == (active == destination && renderable),
{
    active == destination && renderable
}

} // verus!
