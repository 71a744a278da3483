//! The ambient home screen's timing: when it needs a fresh wall-clock read,
//! and what a read does to the screen. Polling uses only the monotonic
//! millisecond clock; every update uses the local time just fetched. The
//! circle's last place is kept as an exact fraction of the arc, and the
//! circle moves exactly when the place changes. (Within a day, distinct
//! fractions of this kind are distinct once rounded for drawing.)
use vstd::prelude::*;

use crate::ui::ambient::{
    boundary_fits, journey_fraction_spec, local_seconds_of_day, period_ok, same_place, same_place_exec, seconds_of_day,
    until_next_boundary, AmbientSchedule, JourneyFraction,
};

verus! {

/// How long the time stays up after a tap, in milliseconds.
pub const TIME_DISPLAY_DURATION_MS: u64 = 10_000;

/// How soon to ask again while local time is unavailable, in milliseconds.
pub const UNAVAILABLE_RETRY_INTERVAL_MS: u64 = 5_000;

/// What the next tick of the screen should do.
#[derive(Clone, Copy, Debug, PartialEq, Eq, Structural)]
pub enum AmbientHomeAction {
    /// Nothing is due.
    Idle,
    /// A scheduled update boundary (or the first entry) is due.
    FetchForUpdate,
    /// A tap asked for the time display (or refreshed it).
    FetchForShow,
    /// The time display's window is over: fetch the time to resume.
    FetchForReturn,
}

/// The screen's mode.
#[derive(Clone, Copy, Debug, PartialEq, Eq, Structural)]
pub enum AmbientMode {
    /// The arc and circle show; the next read is due at `next_check_due_ms`.
    /// `last_place` is where the circle was placed, `None` while it is
    /// hidden for want of local time.
    Ambient { next_check_due_ms: u64, last_place: Option<JourneyFraction> },
    /// The time of day shows since `shown_at_ms`.
    TimeDisplay { shown_at_ms: u64 },
}

/// What happens to the circle.
#[derive(Clone, Copy, Debug, PartialEq, Eq, Structural)]
pub enum CircleChange {
    Keep,
    Hide,
    /// Show it at this place on the arc.
    Place(JourneyFraction),
}

/// The outcome of applying a wall-clock read.
#[derive(Clone, Copy, Debug, PartialEq, Eq, Structural)]
pub struct AmbientApplied {
    pub mode: AmbientMode,
    /// The visible surface changed: repaint the screen.
    pub repaint: bool,
    pub circle: CircleChange,
    /// Show the time display with this time of day, in seconds since
    /// local midnight, hiding the arc and showing the back button.
    pub show_time: Option<u32>,
    /// Hide the time display and show the arc again, with the back button
    /// as the configuration wants it.
    pub return_to_ambient: bool,
}

/// Whether the screen needs a read at `now_ms`: the time display's window
/// has run out, or the ambient view's next check is due.
pub open spec fn poll_spec(mode: AmbientMode, now_ms: u64) -> AmbientHomeAction {
    match mode {
        AmbientMode::TimeDisplay { shown_at_ms } => if (if now_ms >= shown_at_ms { now_ms - shown_at_ms } else { 0 })
            >= TIME_DISPLAY_DURATION_MS {
            AmbientHomeAction::FetchForReturn
        } else {
            AmbientHomeAction::Idle
        },
        AmbientMode::Ambient { next_check_due_ms, .. } => if now_ms >= next_check_due_ms {
            AmbientHomeAction::FetchForUpdate
        } else {
            AmbientHomeAction::Idle
        },
    }
}

/// Decides whether the screen needs a read now.
pub fn poll(mode: AmbientMode, now_ms: u64) -> (a: AmbientHomeAction)
    ensures
        a == poll_spec(mode, now_ms),
{
    match mode {
        AmbientMode::TimeDisplay { shown_at_ms } => if now_ms.saturating_sub(shown_at_ms) >= TIME_DISPLAY_DURATION_MS {
            AmbientHomeAction::FetchForReturn
        } else {
            AmbientHomeAction::Idle
        },
        AmbientMode::Ambient { next_check_due_ms, .. } => if now_ms >= next_check_due_ms {
            AmbientHomeAction::FetchForUpdate
        } else {
            AmbientHomeAction::Idle
        },
    }
}

/// A tap on the background asks for the time only when tap-to-show-time is
/// configured; otherwise the ambient view stays.
pub fn handle_tap(tap_to_show_time: bool) -> (a: AmbientHomeAction)
    ensures
        a == (if tap_to_show_time { AmbientHomeAction::FetchForShow } else { AmbientHomeAction::Idle }),
{
    if tap_to_show_time {
        AmbientHomeAction::FetchForShow
    } else {
        AmbientHomeAction::Idle
    }
}

/// The back button sits on the time display, which a tap reveals; without
/// tap-to-show-time it stays on the ambient view instead.
pub fn back_button_starts_visible(tap_to_show_time: bool) -> (r: bool)
    ensures
        r == !tap_to_show_time,
{
    !tap_to_show_time
}

/// The ambient mode after a read at `now_ms`: with local time, the next
/// check waits for the next update boundary and the circle's position is
/// recorded; without, the next check comes after the retry interval.
pub open spec fn resumed_mode(s: AmbientSchedule, local_epoch: Option<u32>, now_ms: u64) -> AmbientMode {
    match local_epoch {
        Some(e) => {
            let t = seconds_of_day(e as int);
            AmbientMode::Ambient {
                next_check_due_ms: (now_ms + until_next_boundary(s, t) * 1000) as u64,
                last_place: Some(journey_fraction_spec(s, t)),
            }
        },
        None => AmbientMode::Ambient {
            next_check_due_ms: (now_ms + UNAVAILABLE_RETRY_INTERVAL_MS) as u64,
            last_place: None,
        },
    }
}

/// The next check after a read at `now_ms` fits in the millisecond clock,
/// and so does the boundary arithmetic of the read's time of day.
pub open spec fn resume_fits(s: AmbientSchedule, local_epoch: Option<u32>, now_ms: u64) -> bool {
    match local_epoch {
        Some(e) => {
            let t = seconds_of_day(e as int);
            period_ok(s, t) && boundary_fits(s, t) && now_ms + until_next_boundary(s, t) * 1000 <= u64::MAX
        },
        None => now_ms + UNAVAILABLE_RETRY_INTERVAL_MS <= u64::MAX,
    }
}

/// Applying `action` computes a next check only for an update in the
/// ambient mode and for a return; that check must fit.
pub open spec fn apply_fits(
    s: AmbientSchedule,
    mode: AmbientMode,
    action: AmbientHomeAction,
    local_epoch: Option<u32>,
    now_ms: u64,
) -> bool {
    match action {
        AmbientHomeAction::FetchForUpdate => mode is Ambient ==> resume_fits(s, local_epoch, now_ms),
        AmbientHomeAction::FetchForReturn => resume_fits(s, local_epoch, now_ms),
        _ => true,
    }
}

/// Two optional places are the same: both absent, or both present at the
/// same place on the arc.
pub open spec fn same_placement(a: Option<JourneyFraction>, b: Option<JourneyFraction>) -> bool {
    match (a, b) {
        (Some(x), Some(y)) => same_place(x, y),
        (None, None) => true,
        _ => false,
    }
}

fn same_placement_exec(a: Option<JourneyFraction>, b: Option<JourneyFraction>) -> (r: bool)
    ensures
        r == same_placement(a, b),
{
    match (a, b) {
        (Some(x), Some(y)) => same_place_exec(x, y),
        (None, None) => true,
        _ => false,
    }
}

pub open spec fn unchanged(mode: AmbientMode) -> AmbientApplied {
    AmbientApplied { mode, repaint: false, circle: CircleChange::Keep, show_time: None, return_to_ambient: false }
}

/// What a read does. `local_epoch` is the local epoch time of a valid
/// snapshot, `None` when local time is unavailable.
/// - An update in the ambient mode records the circle's new position and
///   the next check, and moves (or hides) the circle only when its
///   position changed; a late update after a tap changes nothing.
/// - A request to show the time shows it and starts the display's window;
///   without local time the screen stays as it is.
/// - A return always brings the ambient view back, with the circle placed
///   or hidden.
pub open spec fn apply_spec(
    s: AmbientSchedule,
    mode: AmbientMode,
    action: AmbientHomeAction,
    local_epoch: Option<u32>,
    now_ms: u64,
) -> AmbientApplied {
    match action {
        AmbientHomeAction::Idle => unchanged(mode),
        AmbientHomeAction::FetchForUpdate => match mode {
            AmbientMode::TimeDisplay { .. } => unchanged(mode),
            AmbientMode::Ambient { last_place, .. } => {
                let next = resumed_mode(s, local_epoch, now_ms);
                let placed = next->last_place;
                let changed = !same_placement(last_place, placed);
                AmbientApplied {
                    mode: next,
                    repaint: changed,
                    circle: if !changed {
                        CircleChange::Keep
                    } else {
                        match placed {
                            Some(el) => CircleChange::Place(el),
                            None => CircleChange::Hide,
                        }
                    },
                    show_time: None,
                    return_to_ambient: false,
                }
            },
        },
        AmbientHomeAction::FetchForShow => match local_epoch {
            None => unchanged(mode),
            Some(e) => AmbientApplied {
                mode: AmbientMode::TimeDisplay { shown_at_ms: now_ms },
                repaint: true,
                circle: CircleChange::Keep,
                show_time: Some(seconds_of_day(e as int) as u32),
                return_to_ambient: false,
            },
        },
        AmbientHomeAction::FetchForReturn => {
            let next = resumed_mode(s, local_epoch, now_ms);
            AmbientApplied {
                mode: next,
                repaint: true,
                circle: match next->last_place {
                    Some(el) => CircleChange::Place(el),
                    None => CircleChange::Hide,
                },
                show_time: None,
                return_to_ambient: true,
            }
        },
    }
}

fn resume(s: AmbientSchedule, local_epoch: Option<u32>, now_ms: u64) -> (m: AmbientMode)
    requires
        resume_fits(s, local_epoch, now_ms),
    ensures
        m == resumed_mode(s, local_epoch, now_ms),
        m is Ambient,
{
    match local_epoch {
        Some(e) => {
            let t = local_seconds_of_day(e);
            let delay = s.seconds_until_next_boundary(t);
            let place = s.journey_fraction(t);
            AmbientMode::Ambient { next_check_due_ms: now_ms + (delay as u64) * 1000, last_place: Some(place) }
        },
        None => AmbientMode::Ambient { next_check_due_ms: now_ms + UNAVAILABLE_RETRY_INTERVAL_MS, last_place: None },
    }
}

/// Applies a wall-clock read for `action`.
pub fn apply(
    s: AmbientSchedule,
    mode: AmbientMode,
    action: AmbientHomeAction,
    local_epoch: Option<u32>,
    now_ms: u64,
) -> (r: AmbientApplied)
    requires
        apply_fits(s, mode, action, local_epoch, now_ms),
    ensures
        r == apply_spec(s, mode, action, local_epoch, now_ms),
{
    let keep = AmbientApplied {
        mode,
        repaint: false,
        circle: CircleChange::Keep,
        show_time: None,
        return_to_ambient: false,
    };
    match action {
        AmbientHomeAction::Idle => keep,
        AmbientHomeAction::FetchForUpdate => match mode {
            AmbientMode::TimeDisplay { .. } => keep,
            AmbientMode::Ambient { last_place, .. } => {
                let next = resume(s, local_epoch, now_ms);
                let placed = match next {
                    AmbientMode::Ambient { last_place, .. } => last_place,
                    AmbientMode::TimeDisplay { .. } => None,
                };
                let changed = !same_placement_exec(last_place, placed);
                let circle = if !changed {
                    CircleChange::Keep
                } else {
                    match placed {
                        Some(el) => CircleChange::Place(el),
                        None => CircleChange::Hide,
                    }
                };
                AmbientApplied { mode: next, repaint: changed, circle, show_time: None, return_to_ambient: false }
            },
        },
        AmbientHomeAction::FetchForShow => match local_epoch {
            None => keep,
            Some(e) => AmbientApplied {
                mode: AmbientMode::TimeDisplay { shown_at_ms: now_ms },
                repaint: true,
                circle: CircleChange::Keep,
                show_time: Some(local_seconds_of_day(e)),
                return_to_ambient: false,
            },
        },
        AmbientHomeAction::FetchForReturn => {
            let next = resume(s, local_epoch, now_ms);
            let circle = match next {
                AmbientMode::Ambient { last_place: Some(el), .. } => CircleChange::Place(el),
                _ => CircleChange::Hide,
            };
            AmbientApplied { mode: next, repaint: true, circle, show_time: None, return_to_ambient: true }
        },
    }
}

/// Every read that schedules a next check schedules it at least a second
/// later: the screen never asks for a read it has just made.
pub proof fn lemma_next_check_is_later(s: AmbientSchedule, local_epoch: Option<u32>, now_ms: u64)
    requires
        resume_fits(s, local_epoch, now_ms),
    ensures
        resumed_mode(s, local_epoch, now_ms)->next_check_due_ms >= now_ms + 1000,
        poll_spec(resumed_mode(s, local_epoch, now_ms), now_ms) == AmbientHomeAction::Idle,
{
}

/// Without local time a tap leaves the screen as it is, and with the option
/// off a tap asks for nothing at all.
pub proof fn lemma_tap_without_time_keeps_the_view(s: AmbientSchedule, mode: AmbientMode, now_ms: u64)
    ensures
        apply_spec(s, mode, AmbientHomeAction::FetchForShow, None, now_ms) == unchanged(mode),
        apply_spec(s, mode, AmbientHomeAction::Idle, None, now_ms) == unchanged(mode),
{
}

} // verus!
