//! Classified swipes and bare releases during the guided swipe cases.
use vstd::prelude::*;

use super::event::{TouchEvent, TouchEventKind, TouchSwipeDirection};
use super::flow::{emit_trace_view, inc16};
use super::swipe::{
    advance_view, append_trace, case_matches_spec, start_matches_spec, swipe_case_matches, swipe_case_spec,
    swipe_start_matches, SwipeCaseTraceInput,
};
use super::wizard::{
    PendingSwipeRelease, SwipeAttempt, SwipeCaseSpec, SwipePoint, TouchCalibrationWizard, WizardHint,
    WizardPhase, WizardView, SCREEN_HEIGHT, SCREEN_WIDTH, TRACE_VERDICT_MISMATCH, TRACE_VERDICT_PASS,
    TRACE_VERDICT_RELEASE_NO_SWIPE, TRACE_VERDICT_SKIP,
};

verus! {

/// The gesture start of an event.
pub open spec fn event_start(e: TouchEvent) -> SwipePoint {
    SwipePoint { x: e.start_x as i32, y: e.start_y as i32 }
}

/// The (debounced) position of an event.
pub open spec fn event_end(e: TouchEvent) -> SwipePoint {
    SwipePoint { x: e.x as i32, y: e.y as i32 }
}

/// The case record input for a classified swipe event.
pub open spec fn event_trace_input(
    w: WizardView,
    case: Option<SwipeCaseSpec>,
    e: TouchEvent,
    verdict: u8,
    direction: TouchSwipeDirection,
) -> SwipeCaseTraceInput {
    SwipeCaseTraceInput {
        t_ms: e.t_ms,
        case_index: w.swipe_case_index,
        case,
        verdict,
        classified_direction: Some(direction),
        start: event_start(e),
        end: event_end(e),
        duration_ms: e.duration_ms,
        move_count: e.move_count,
        max_travel_px: e.max_travel_px,
        release_debounce_ms: e.release_debounce_ms,
        dropout_count: e.dropout_count,
    }
}

/// The case record input for a release that was never classified.
pub open spec fn release_trace_input(w: WizardView, case: Option<SwipeCaseSpec>, p: PendingSwipeRelease, verdict: u8) -> SwipeCaseTraceInput {
    SwipeCaseTraceInput {
        t_ms: p.t_ms,
        case_index: w.swipe_case_index,
        case,
        verdict,
        classified_direction: None,
        start: p.start,
        end: p.end,
        duration_ms: p.duration_ms,
        move_count: p.move_count,
        max_travel_px: p.max_travel_px,
        release_debounce_ms: p.release_debounce_ms,
        dropout_count: p.dropout_count,
    }
}

/// Whether what a swipe-phase handler changed is visible.
pub open spec fn swipe_changed(a: WizardView, b: WizardView) -> bool {
    b.phase != a.phase || b.hint != a.hint || b.last_swipe != a.last_swipe || b.swipe_case_index
        != a.swipe_case_index || b.swipe_case_passed != a.swipe_case_passed || b.swipe_case_failed
        != a.swipe_case_failed || b.swipe_case_attempts != a.swipe_case_attempts
}

/// A classified swipe in the swipe phase. A swipe that started outside the
/// FROM circle is recorded and the case retried; otherwise it counts as an
/// attempt, passes or fails the case, is recorded and the case is settled.
pub open spec fn swipe_event_spec(w: WizardView, e: TouchEvent, direction: TouchSwipeDirection) -> (bool, WizardView) {
    if w.phase == WizardPhase::SwipeRight {
        let case = swipe_case_spec(w.swipe_case_index as int, SCREEN_WIDTH as int, SCREEN_HEIGHT as int);
        let start = event_start(e);
        let end = event_end(e);
        let w0 = WizardView { swipe_trace: append_trace(w.swipe_trace, end), ..w };
        let out = if case is Some && !start_matches_spec(case->0, start) {
            emit_trace_view(
                WizardView {
                    hint: WizardHint::StartOutsideFrom,
                    last_swipe: Some(SwipeAttempt { start, end, accepted: false }),
                    swipe_trace_pending_points: 0,
                    ..w0
                },
                event_trace_input(w, case, e, TRACE_VERDICT_SKIP, direction),
            )
        } else {
            let pass = case is Some && case_matches_spec(case->0, start, end, e.duration_ms as int, Some(direction), true);
            let w1 = WizardView {
                swipe_case_attempts: inc16(w.swipe_case_attempts),
                last_swipe: Some(SwipeAttempt { start, end, accepted: pass }),
                swipe_trace_pending_points: 0,
                ..w0
            };
            if pass {
                let w2 = WizardView {
                    swipe_case_passed: if w.swipe_case_passed < u8::MAX { (w.swipe_case_passed + 1) as u8 } else { u8::MAX },
                    ..w1
                };
                advance_view(
                    emit_trace_view(w2, event_trace_input(w, case, e, TRACE_VERDICT_PASS, direction)),
                    e.t_ms,
                    WizardHint::SwipePassNext,
                    WizardHint::AllCasesDone,
                )
            } else {
                let w2 = WizardView { swipe_case_failed: inc16(w.swipe_case_failed), ..w1 };
                advance_view(
                    emit_trace_view(w2, event_trace_input(w, case, e, TRACE_VERDICT_MISMATCH, direction)),
                    e.t_ms,
                    WizardHint::SwipeMismatchNext,
                    WizardHint::AllCasesDone,
                )
            }
        };
        (swipe_changed(w, out), out)
    } else {
        (false, w)
    }
}

/// The release as a pending record, to be paired with its classification.
pub open spec fn pending_from(e: TouchEvent) -> PendingSwipeRelease {
    PendingSwipeRelease {
        t_ms: e.t_ms,
        start: event_start(e),
        end: event_end(e),
        duration_ms: e.duration_ms,
        move_count: e.move_count,
        max_travel_px: e.max_travel_px,
        release_debounce_ms: e.release_debounce_ms,
        dropout_count: e.dropout_count,
    }
}

/// A release in the swipe phase: traced, shown as an unaccepted attempt and
/// held pending until its swipe classification arrives.
pub open spec fn swipe_release_spec(w: WizardView, e: TouchEvent) -> (bool, WizardView) {
    if w.phase == WizardPhase::SwipeRight {
        let out = WizardView {
            swipe_trace: append_trace(w.swipe_trace, event_end(e)),
            last_swipe: Some(SwipeAttempt { start: event_start(e), end: event_end(e), accepted: false }),
            swipe_trace_pending_points: 0,
            pending_swipe_release: Some(pending_from(e)),
            ..w
        };
        (out.last_swipe != w.last_swipe || out.pending_swipe_release != w.pending_swipe_release, out)
    } else {
        (false, w)
    }
}

/// Whether `event` is the classification of the pending release: a swipe with
/// the same timestamp, start and diagnostics (its end may differ).
pub open spec fn release_matches_spec(p: PendingSwipeRelease, e: TouchEvent) -> bool {
    &&& e.kind is Swipe
    &&& e.t_ms == p.t_ms
    &&& e.start_x as i32 == p.start.x
    &&& e.start_y as i32 == p.start.y
    &&& e.duration_ms == p.duration_ms
    &&& e.move_count == p.move_count
    &&& e.max_travel_px == p.max_travel_px
    &&& e.release_debounce_ms == p.release_debounce_ms
    &&& e.dropout_count == p.dropout_count
}

/// A release never classified as a swipe: in the swipe phase it is shown,
/// and either recorded as starting outside the FROM circle or counted as a
/// failed attempt.
pub open spec fn commit_release_spec(w: WizardView, p: PendingSwipeRelease) -> (bool, WizardView) {
    if w.phase == WizardPhase::SwipeRight {
        let case = swipe_case_spec(w.swipe_case_index as int, SCREEN_WIDTH as int, SCREEN_HEIGHT as int);
        let w0 = WizardView { last_swipe: Some(SwipeAttempt { start: p.start, end: p.end, accepted: false }), ..w };
        let out = if case is Some && !start_matches_spec(case->0, p.start) {
            emit_trace_view(
                WizardView { hint: WizardHint::ReleaseOutsideFrom, ..w0 },
                release_trace_input(w, case, p, TRACE_VERDICT_SKIP),
            )
        } else {
            emit_trace_view(
                WizardView {
                    swipe_case_attempts: inc16(w.swipe_case_attempts),
                    swipe_case_failed: inc16(w.swipe_case_failed),
                    hint: WizardHint::ReleaseWithoutSwipe,
                    ..w0
                },
                release_trace_input(w, case, p, TRACE_VERDICT_RELEASE_NO_SWIPE),
            )
        };
        (
            out.hint != w.hint || out.last_swipe != w.last_swipe || out.swipe_case_failed != w.swipe_case_failed
                || out.swipe_case_attempts != w.swipe_case_attempts,
            out,
        )
    } else {
        (false, w)
    }
}

/// Settles a pending release before `event` is handled: a button press or the
/// release's own classification drops it; anything else commits it as a
/// release without a swipe.
pub open spec fn resolve_release_spec(w: WizardView, e: TouchEvent, continue_hit: bool, swipe_mark_hit: bool) -> (bool, WizardView) {
    match w.pending_swipe_release {
        None => (false, w),
        Some(p) => {
            let cleared = WizardView { pending_swipe_release: None, ..w };
            if continue_hit || swipe_mark_hit || release_matches_spec(p, e) {
                (false, cleared)
            } else {
                commit_release_spec(cleared, p)
            }
        },
    }
}

/// Whether a swipe event is the classification of the pending release.
pub fn pending_release_matches_swipe(pending: PendingSwipeRelease, event: TouchEvent) -> (r: bool)
    ensures
        r == release_matches_spec(pending, event),
{
    matches!(event.kind, TouchEventKind::Swipe(_)) && event.t_ms == pending.t_ms && event.start_x as i32
        == pending.start.x && event.start_y as i32 == pending.start.y && event.duration_ms
        == pending.duration_ms && event.move_count == pending.move_count && event.max_travel_px
        == pending.max_travel_px && event.release_debounce_ms == pending.release_debounce_ms
        && event.dropout_count == pending.dropout_count
}

fn same_attempt(a: Option<SwipeAttempt>, b: Option<SwipeAttempt>) -> (r: bool)
    ensures
        r == (a == b),
{
    match (a, b) {
        (None, None) => true,
        (Some(x), Some(y)) => x == y,
        _ => false,
    }
}

fn same_pending(a: Option<PendingSwipeRelease>, b: Option<PendingSwipeRelease>) -> (r: bool)
    ensures
        r == (a == b),
{
    match (a, b) {
        (None, None) => true,
        (Some(x), Some(y)) => x == y,
        _ => false,
    }
}

fn inc_u16(v: u16) -> (r: u16)
    ensures
        r == inc16(v),
{
    if v < 65535 { v + 1 } else { v }
}

impl TouchCalibrationWizard {
    /// Handles a classified swipe; reports whether anything shown changed.
    pub fn on_swipe_event(&mut self, event: TouchEvent, direction: TouchSwipeDirection) -> (changed: bool)
        ensures
            (changed, final(self)@) == swipe_event_spec(old(self)@, event, direction),
    {
        let prev_phase = self.phase;
        let prev_hint = self.hint;
        let prev_last_swipe = self.last_swipe;
        let prev_case_index = self.swipe_case_index;
        let prev_case_passed = self.swipe_case_passed;
        let prev_case_failed = self.swipe_case_failed;
        let prev_case_attempts = self.swipe_case_attempts;
        if self.phase == WizardPhase::SwipeRight {
            let case_index = self.swipe_case_index;
            let case = self.current_swipe_case(SCREEN_WIDTH, SCREEN_HEIGHT);
            let start = SwipePoint { x: event.start_x as i32, y: event.start_y as i32 };
            let end = SwipePoint { x: event.x as i32, y: event.y as i32 };
            self.append_swipe_trace_point(event.x as i32, event.y as i32);
            let start_outside = match case {
                Some(spec) => !swipe_start_matches(spec, start),
                None => false,
            };
            if start_outside {
                self.hint = WizardHint::StartOutsideFrom;
                self.last_swipe = Some(SwipeAttempt { start, end, accepted: false });
                self.swipe_trace_pending_points = 0;
                self.emit_swipe_case_trace(
                    SwipeCaseTraceInput {
                        t_ms: event.t_ms,
                        case_index,
                        case,
                        verdict: TRACE_VERDICT_SKIP,
                        classified_direction: Some(direction),
                        start,
                        end,
                        duration_ms: event.duration_ms,
                        move_count: event.move_count,
                        max_travel_px: event.max_travel_px,
                        release_debounce_ms: event.release_debounce_ms,
                        dropout_count: event.dropout_count,
                    },
                );
                proof {
                    let (c, v) = swipe_event_spec(old(self)@, event, direction);
                    assert(self@ =~= v);
                }
                return self.phase != prev_phase || self.hint != prev_hint || !same_attempt(
                    self.last_swipe,
                    prev_last_swipe,
                ) || self.swipe_case_index != prev_case_index || self.swipe_case_passed != prev_case_passed
                    || self.swipe_case_failed != prev_case_failed || self.swipe_case_attempts
                    != prev_case_attempts;
            }
            self.swipe_case_attempts = inc_u16(self.swipe_case_attempts);
            let case_pass = match case {
                Some(spec) => swipe_case_matches(spec, start, end, event.duration_ms, Some(direction), true),
                None => false,
            };
            self.last_swipe = Some(SwipeAttempt { start, end, accepted: case_pass });
            self.swipe_trace_pending_points = 0;
            if case_pass {
                self.swipe_case_passed = if self.swipe_case_passed < 255 { self.swipe_case_passed + 1 } else { 255 };
                self.emit_swipe_case_trace(
                    SwipeCaseTraceInput {
                        t_ms: event.t_ms,
                        case_index,
                        case,
                        verdict: TRACE_VERDICT_PASS,
                        classified_direction: Some(direction),
                        start,
                        end,
                        duration_ms: event.duration_ms,
                        move_count: event.move_count,
                        max_travel_px: event.max_travel_px,
                        release_debounce_ms: event.release_debounce_ms,
                        dropout_count: event.dropout_count,
                    },
                );
                self.advance_swipe_case_or_complete(event.t_ms, WizardHint::SwipePassNext, WizardHint::AllCasesDone);
            } else {
                self.swipe_case_failed = inc_u16(self.swipe_case_failed);
                self.emit_swipe_case_trace(
                    SwipeCaseTraceInput {
                        t_ms: event.t_ms,
                        case_index,
                        case,
                        verdict: TRACE_VERDICT_MISMATCH,
                        classified_direction: Some(direction),
                        start,
                        end,
                        duration_ms: event.duration_ms,
                        move_count: event.move_count,
                        max_travel_px: event.max_travel_px,
                        release_debounce_ms: event.release_debounce_ms,
                        dropout_count: event.dropout_count,
                    },
                );
                self.advance_swipe_case_or_complete(event.t_ms, WizardHint::SwipeMismatchNext, WizardHint::AllCasesDone);
            }
        }
        proof {
            let (c, v) = swipe_event_spec(old(self)@, event, direction);
            assert(self@ =~= v);
        }
        self.phase != prev_phase || self.hint != prev_hint || !same_attempt(self.last_swipe, prev_last_swipe)
            || self.swipe_case_index != prev_case_index || self.swipe_case_passed != prev_case_passed
            || self.swipe_case_failed != prev_case_failed || self.swipe_case_attempts != prev_case_attempts
    }

    /// Handles a release in the swipe phase; reports whether anything changed.
    pub fn on_swipe_release(&mut self, event: TouchEvent) -> (changed: bool)
        ensures
            (changed, final(self)@) == swipe_release_spec(old(self)@, event),
    {
        let prev_last_swipe = self.last_swipe;
        let prev_pending_swipe_release = self.pending_swipe_release;
        if matches!(self.phase, WizardPhase::SwipeRight) {
            let start = SwipePoint { x: event.start_x as i32, y: event.start_y as i32 };
            let end = SwipePoint { x: event.x as i32, y: event.y as i32 };
            self.append_swipe_trace_point(event.x as i32, event.y as i32);
            self.last_swipe = Some(SwipeAttempt { start, end, accepted: false });
            self.swipe_trace_pending_points = 0;
            self.pending_swipe_release = Some(
                PendingSwipeRelease {
                    t_ms: event.t_ms,
                    start,
                    end,
                    duration_ms: event.duration_ms,
                    move_count: event.move_count,
                    max_travel_px: event.max_travel_px,
                    release_debounce_ms: event.release_debounce_ms,
                    dropout_count: event.dropout_count,
                },
            );
        }
        proof {
            let (c, v) = swipe_release_spec(old(self)@, event);
            assert(self@ =~= v);
        }
        !same_attempt(self.last_swipe, prev_last_swipe) || !same_pending(
            self.pending_swipe_release,
            prev_pending_swipe_release,
        )
    }

    /// Settles the pending release before `event` is handled; reports whether
    /// anything changed.
    pub fn resolve_pending_swipe_release(&mut self, event: TouchEvent, continue_hit: bool, swipe_mark_hit: bool) -> (changed: bool)
        ensures
            (changed, final(self)@) == resolve_release_spec(old(self)@, event, continue_hit, swipe_mark_hit),
    {
        let pending = match self.pending_swipe_release {
            Some(p) => p,
            None => return false,
        };
        self.pending_swipe_release = None;
        proof {
            assert(self@ =~= (WizardView { pending_swipe_release: None, ..old(self)@ }));
        }
        if continue_hit || swipe_mark_hit {
            return false;
        }
        if pending_release_matches_swipe(pending, event) {
            return false;
        }
        self.commit_swipe_release_no_swipe(pending)
    }

    /// Commits a release that no swipe classification claimed; reports
    /// whether anything changed.
    pub fn commit_swipe_release_no_swipe(&mut self, pending: PendingSwipeRelease) -> (changed: bool)
        ensures
            (changed, final(self)@) == commit_release_spec(old(self)@, pending),
    {
        let prev_hint = self.hint;
        let prev_last_swipe = self.last_swipe;
        let prev_case_failed = self.swipe_case_failed;
        let prev_case_attempts = self.swipe_case_attempts;
        if matches!(self.phase, WizardPhase::SwipeRight) {
            let case_index = self.swipe_case_index;
            let case = self.current_swipe_case(SCREEN_WIDTH, SCREEN_HEIGHT);
            self.last_swipe = Some(SwipeAttempt { start: pending.start, end: pending.end, accepted: false });
            let start_outside = match case {
                Some(spec) => !swipe_start_matches(spec, pending.start),
                None => false,
            };
            if start_outside {
                self.hint = WizardHint::ReleaseOutsideFrom;
                self.emit_swipe_case_trace(
                    SwipeCaseTraceInput {
                        t_ms: pending.t_ms,
                        case_index,
                        case,
                        verdict: TRACE_VERDICT_SKIP,
                        classified_direction: None,
                        start: pending.start,
                        end: pending.end,
                        duration_ms: pending.duration_ms,
                        move_count: pending.move_count,
                        max_travel_px: pending.max_travel_px,
                        release_debounce_ms: pending.release_debounce_ms,
                        dropout_count: pending.dropout_count,
                    },
                );
            } else {
                self.swipe_case_attempts = inc_u16(self.swipe_case_attempts);
                self.swipe_case_failed = inc_u16(self.swipe_case_failed);
                self.hint = WizardHint::ReleaseWithoutSwipe;
                self.emit_swipe_case_trace(
                    SwipeCaseTraceInput {
                        t_ms: pending.t_ms,
                        case_index,
                        case,
                        verdict: TRACE_VERDICT_RELEASE_NO_SWIPE,
                        classified_direction: None,
                        start: pending.start,
                        end: pending.end,
                        duration_ms: pending.duration_ms,
                        move_count: pending.move_count,
                        max_travel_px: pending.max_travel_px,
                        release_debounce_ms: pending.release_debounce_ms,
                        dropout_count: pending.dropout_count,
                    },
                );
            }
        }
        proof {
            let (c, v) = commit_release_spec(old(self)@, pending);
            assert(self@ =~= v);
        }
        self.hint != prev_hint || !same_attempt(self.last_swipe, prev_last_swipe)
            || self.swipe_case_failed != prev_case_failed || self.swipe_case_attempts != prev_case_attempts
    }
}

} // verus!
