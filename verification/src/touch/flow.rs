//! Screen-level decisions of the wizard: buttons, phase changes and the
//! diagnostic records.
use vstd::prelude::*;

use super::event::{TouchSwipeDirection, TouchWizardSessionEvent, TouchWizardSwipeTraceSample};
use super::layout::{
    bounds_int, continue_bounds_spec, continue_button_bounds, in_bounds, point_in_bounds,
    precision_menu_bounds_spec, precision_menu_button_bounds, swipe_mark_bounds_spec,
    swipe_mark_button_bounds, test_return_bounds, test_toggle_bounds, test_toggle_bounds_spec,
};
use super::swipe::{
    advance_view, clamp_to_u16, clamp_u16_spec, cleared_swipe_view, direction_code_spec,
    speed_code_spec, swipe_case_spec, trace_direction_code, trace_speed_code, SwipeCaseTraceInput,
};
use super::wizard::{
    SwipeAttempt, SwipePoint, TestCoordinateMode, TouchCalibrationWizard, WizardHint, WizardPhase,
    WizardView, SCREEN_HEIGHT, SCREEN_WIDTH, TRACE_DIRECTION_UNKNOWN, TRACE_SPEED_UNKNOWN,
    TRACE_VERDICT_MANUAL_MARK, TRACE_VERDICT_SKIP,
};

verus! {

/// What a tap on the precision menu selects.
#[derive(Clone, Copy, Debug, PartialEq, Eq, Structural)]
pub enum PrecisionMenuAction {
    Calibrate,
    Test,
    Continue,
}

/// The record built from a swipe-case input, stamped with `attempt`.
pub open spec fn trace_sample_spec(t: SwipeCaseTraceInput, attempt: u16) -> TouchWizardSwipeTraceSample {
    TouchWizardSwipeTraceSample {
        t_ms: t.t_ms,
        case_index: t.case_index,
        attempt,
        expected_direction: match t.case {
            Some(c) => direction_code_spec(c.direction),
            None => TRACE_DIRECTION_UNKNOWN,
        },
        expected_speed: match t.case {
            Some(c) => speed_code_spec(c.speed),
            None => TRACE_SPEED_UNKNOWN,
        },
        verdict: t.verdict,
        classified_direction: match t.classified_direction {
            Some(d) => direction_code_spec(d),
            None => TRACE_DIRECTION_UNKNOWN,
        },
        start_x: clamp_u16_spec(t.start.x as int),
        start_y: clamp_u16_spec(t.start.y as int),
        end_x: clamp_u16_spec(t.end.x as int),
        end_y: clamp_u16_spec(t.end.y as int),
        duration_ms: t.duration_ms,
        move_count: t.move_count,
        max_travel_px: t.max_travel_px,
        release_debounce_ms: t.release_debounce_ms,
        dropout_count: t.dropout_count,
    }
}

/// The wizard with the record of `t` emitted, stamped with its attempt count.
pub open spec fn emit_trace_view(w: WizardView, t: SwipeCaseTraceInput) -> WizardView {
    WizardView { trace_samples: w.trace_samples.push(trace_sample_spec(t, w.swipe_case_attempts)), ..w }
}

/// Saturating increment.
pub open spec fn inc16(v: u16) -> u16 {
    if v < u16::MAX { (v + 1) as u16 } else { u16::MAX }
}

/// The wizard on the precision test, in calibrated mode, with no touch shown.
pub open spec fn open_test_view(w: WizardView) -> WizardView {
    WizardView {
        phase: WizardPhase::PrecisionTest,
        hint: WizardHint::TapToCompare,
        last_test_touch: None,
        test_mode: TestCoordinateMode::Calibrated,
        ..w
    }
}

/// The wizard back on the precision menu.
pub open spec fn menu_view(w: WizardView) -> WizardView {
    WizardView {
        phase: WizardPhase::PrecisionMenu,
        hint: if w.calibration is Some { WizardHint::CalibrationReady } else { WizardHint::CalibrateFirst },
        calibration_pending_return: false,
        last_test_touch: None,
        ..w
    }
}

/// The wizard with the precision test's coordinate mode switched.
pub open spec fn toggle_view(w: WizardView) -> WizardView {
    match w.test_mode {
        TestCoordinateMode::Calibrated => WizardView {
            test_mode: TestCoordinateMode::Uncalibrated,
            hint: WizardHint::UncalibratedCrosses,
            ..w
        },
        TestCoordinateMode::Uncalibrated => WizardView {
            test_mode: TestCoordinateMode::Calibrated,
            hint: WizardHint::CalibratedCircles,
            ..w
        },
    }
}

/// The wizard entering the guided swipes: progress cleared and the session's
/// start marker emitted.
pub open spec fn enter_swipe_view(w: WizardView, t_ms: u64, hint: WizardHint) -> WizardView {
    let c = cleared_swipe_view(WizardView {
        phase: WizardPhase::SwipeRight,
        hint,
        calibration_pending_return: false,
        ..w
    });
    WizardView { session_events: c.session_events.push(TouchWizardSessionEvent::Start { t_ms }), ..c }
}

/// The case record input for the wizard's current case from the last
/// statistics, with the given verdict, start, end and duration.
pub open spec fn stats_trace_input(
    w: WizardView,
    t_ms: u64,
    verdict: u8,
    start: SwipePoint,
    end: SwipePoint,
    duration_ms: u16,
) -> SwipeCaseTraceInput {
    SwipeCaseTraceInput {
        t_ms,
        case_index: w.swipe_case_index,
        case: swipe_case_spec(w.swipe_case_index as int, SCREEN_WIDTH as int, SCREEN_HEIGHT as int),
        verdict,
        classified_direction: None,
        start,
        end,
        duration_ms,
        move_count: w.swipe_debug.last_move_count,
        max_travel_px: w.swipe_debug.last_max_travel_px,
        release_debounce_ms: w.swipe_debug.last_release_debounce_ms,
        dropout_count: w.swipe_debug.last_dropout_count,
    }
}

/// A manual "I just swiped" mark: in the swipe phase the current case
/// counts as a failed attempt from the last statistics, is recorded and
/// settled; the flag reports whether anything shown changed.
pub open spec fn manual_mark_spec(w: WizardView, t_ms: u64) -> (bool, WizardView) {
    if w.phase == WizardPhase::SwipeRight {
        let start = w.swipe_debug.last_start;
        let end = w.swipe_debug.last_end;
        let w1 = WizardView {
            swipe_case_attempts: inc16(w.swipe_case_attempts),
            swipe_case_failed: inc16(w.swipe_case_failed),
            manual_swipe_marks: inc16(w.manual_swipe_marks),
            last_swipe: Some(SwipeAttempt { start, end, accepted: false }),
            ..w
        };
        let input = stats_trace_input(w, t_ms, TRACE_VERDICT_MANUAL_MARK, start, end, w.swipe_debug.last_duration_ms);
        let w3 = advance_view(emit_trace_view(w1, input), t_ms, WizardHint::ManualMarkNext, WizardHint::ManualMarkDone);
        (
            w3.hint != w.hint || w3.last_swipe != w.last_swipe || w3.swipe_case_failed != w.swipe_case_failed
                || w3.swipe_case_attempts != w.swipe_case_attempts || w3.manual_swipe_marks
                != w.manual_swipe_marks,
            w3,
        )
    } else {
        (false, w)
    }
}

/// The continue button: the menu opens the guided swipes, the swipe phase
/// skips the current case (recording it), the completed wizard closes; the
/// flag reports whether anything shown changed.
pub open spec fn continue_spec(w: WizardView, t_ms: u64) -> (bool, WizardView) {
    let w3 = match w.phase {
        WizardPhase::PrecisionMenu => enter_swipe_view(w, t_ms, WizardHint::GuidedSwipesReady),
        WizardPhase::SwipeRight => {
            let (start, end) = match w.last_swipe {
                Some(last) => (last.start, last.end),
                None => (w.swipe_debug.last_start, w.swipe_debug.last_end),
            };
            let input = stats_trace_input(w, t_ms, TRACE_VERDICT_SKIP, start, end, w.swipe_debug.last_duration_ms);
            advance_view(emit_trace_view(w, input), t_ms, WizardHint::CaseSkippedNext, WizardHint::CasesDoneSkip)
        },
        WizardPhase::Complete => WizardView { phase: WizardPhase::Closed, ..w },
        _ => w,
    };
    (
        w3.phase != w.phase || w3.hint != w.hint || w3.swipe_trace != w.swipe_trace || w3.last_swipe
            != w.last_swipe,
        w3,
    )
}

fn same_attempt(a: Option<SwipeAttempt>, b: Option<SwipeAttempt>) -> (r: bool)
    ensures
        r == (a == b),
{
    match (a, b) {
        (None, None) => true,
        (Some(x), Some(y)) => x == y,
        _ => false,
    }
}

impl TouchCalibrationWizard {
    /// The swipe statistics are drawn in the swipe phase.
    pub fn shows_swipe_debug(&self) -> (r: bool)
        ensures
            r == (self.phase == WizardPhase::SwipeRight),
    {
        matches!(self.phase, WizardPhase::SwipeRight)
    }

    /// The continue button is shown in the swipe phase and when complete.
    pub fn shows_continue_button(&self) -> (r: bool)
        ensures
            r == (self.phase == WizardPhase::SwipeRight || self.phase == WizardPhase::Complete),
    {
        matches!(self.phase, WizardPhase::SwipeRight | WizardPhase::Complete)
    }

    /// Label of the continue button: skip in the swipe phase, exit when
    /// complete, empty otherwise.
    pub fn continue_button_label(&self) -> (r: &'static str)
        ensures
            self.phase == WizardPhase::SwipeRight ==> r@ == "SKIP CASE"@,
            self.phase == WizardPhase::Complete ==> r@ == "EXIT"@,
            self.phase != WizardPhase::SwipeRight && self.phase != WizardPhase::Complete ==> r@ == ""@,
    {
        match self.phase {
            WizardPhase::SwipeRight => "SKIP CASE",
            WizardPhase::Complete => "EXIT",
            _ => "",
        }
    }

    /// The swipe-mark button is shown in the swipe phase.
    pub fn shows_swipe_mark_button(&self) -> (r: bool)
        ensures
            r == (self.phase == WizardPhase::SwipeRight),
    {
        matches!(self.phase, WizardPhase::SwipeRight)
    }

    /// Whether `(x, y)` hits the continue button.
    pub fn continue_button_hit(&self, x: i32, y: i32, width: i32, height: i32) -> (r: bool)
        requires
            width >= i32::MIN + 80,
            height >= i32::MIN + 108,
        ensures
            r == in_bounds(x as int, y as int, continue_bounds_spec(width as int, height as int)),
    {
        point_in_bounds(x, y, continue_button_bounds(width, height))
    }

    /// Whether `(x, y)` hits the swipe-mark button.
    pub fn swipe_mark_button_hit(&self, x: i32, y: i32, width: i32, height: i32) -> (r: bool)
        requires
            width >= i32::MIN + 100,
            height >= i32::MIN + 166,
        ensures
            r == in_bounds(x as int, y as int, swipe_mark_bounds_spec(width as int, height as int)),
    {
        point_in_bounds(x, y, swipe_mark_button_bounds(width, height))
    }

    /// The precision-menu button under `(x, y)`, if any.
    pub fn precision_menu_action(&self, x: i32, y: i32, width: i32, height: i32) -> (r: Option<PrecisionMenuAction>)
        requires
            width >= i32::MIN + 120,
        ensures
            ({
                let (c, t, k) = precision_menu_bounds_spec(width as int, height as int);
                r == if in_bounds(x as int, y as int, c) {
                    Some(PrecisionMenuAction::Calibrate)
                } else if in_bounds(x as int, y as int, t) {
                    Some(PrecisionMenuAction::Test)
                } else if in_bounds(x as int, y as int, k) {
                    Some(PrecisionMenuAction::Continue)
                } else {
                    None
                }
            }),
    {
        let (calibrate, test, continue_button) = precision_menu_button_bounds(width, height);
        if point_in_bounds(x, y, calibrate) {
            Some(PrecisionMenuAction::Calibrate)
        } else if point_in_bounds(x, y, test) {
            Some(PrecisionMenuAction::Test)
        } else if point_in_bounds(x, y, continue_button) {
            Some(PrecisionMenuAction::Continue)
        } else {
            None
        }
    }

    /// Whether `(x, y)` hits the coordinate-mode toggle.
    pub fn test_toggle_hit(&self, x: i32, y: i32, width: i32, height: i32) -> (r: bool)
        requires
            width >= i32::MIN + 160,
            height >= i32::MIN + 58,
        ensures
            r == in_bounds(x as int, y as int, test_toggle_bounds_spec(width as int, height as int)),
    {
        point_in_bounds(x, y, test_toggle_bounds(width, height))
    }

    /// Whether `(x, y)` hits the return button of the precision test.
    pub fn test_return_hit(&self, x: i32, y: i32, width: i32, height: i32) -> (r: bool)
        requires
            width >= i32::MIN + 80,
            height >= i32::MIN + 108,
        ensures
            r == in_bounds(x as int, y as int, continue_bounds_spec(width as int, height as int)),
    {
        point_in_bounds(x, y, test_return_bounds(width, height))
    }

    /// Opens the precision test.
    pub fn open_precision_test(&mut self)
        ensures
            final(self)@ == open_test_view(old(self)@),
    {
        self.phase = WizardPhase::PrecisionTest;
        self.hint = WizardHint::TapToCompare;
        self.last_test_touch = None;
        self.test_mode = TestCoordinateMode::Calibrated;
        assert(self@ =~= open_test_view(old(self)@));
    }

    /// Returns to the precision menu.
    pub fn return_to_precision_menu(&mut self)
        ensures
            final(self)@ == menu_view(old(self)@),
    {
        self.phase = WizardPhase::PrecisionMenu;
        self.hint = if self.calibration.is_some() {
            WizardHint::CalibrationReady
        } else {
            WizardHint::CalibrateFirst
        };
        self.calibration_pending_return = false;
        self.last_test_touch = None;
        assert(self@ =~= menu_view(old(self)@));
    }

    /// Switches the precision test between calibrated and raw coordinates.
    pub fn toggle_test_mode(&mut self)
        ensures
            final(self)@ == toggle_view(old(self)@),
    {
        self.test_mode = match self.test_mode {
            TestCoordinateMode::Calibrated => TestCoordinateMode::Uncalibrated,
            TestCoordinateMode::Uncalibrated => TestCoordinateMode::Calibrated,
        };
        self.hint = match self.test_mode {
            TestCoordinateMode::Calibrated => WizardHint::CalibratedCircles,
            TestCoordinateMode::Uncalibrated => WizardHint::UncalibratedCrosses,
        };
        assert(self@ =~= toggle_view(old(self)@));
    }

    /// Handles the "I just swiped" button; reports whether anything changed.
    pub fn on_manual_swipe_mark(&mut self, t_ms: u64) -> (changed: bool)
        ensures
            (changed, final(self)@) == manual_mark_spec(old(self)@, t_ms),
    {
        let prev_hint = self.hint;
        let prev_last_swipe = self.last_swipe;
        let prev_case_failed = self.swipe_case_failed;
        let prev_case_attempts = self.swipe_case_attempts;
        let prev_manual_swipe_marks = self.manual_swipe_marks;
        if matches!(self.phase, WizardPhase::SwipeRight) {
            let case_index = self.swipe_case_index;
            let case = self.current_swipe_case(SCREEN_WIDTH, SCREEN_HEIGHT);
            let start = self.swipe_debug.last_start;
            let end = self.swipe_debug.last_end;
            self.swipe_case_attempts = sat_inc(self.swipe_case_attempts);
            self.swipe_case_failed = sat_inc(self.swipe_case_failed);
            self.manual_swipe_marks = sat_inc(self.manual_swipe_marks);
            self.last_swipe = Some(SwipeAttempt { start, end, accepted: false });
            self.emit_swipe_case_trace(
                SwipeCaseTraceInput {
                    t_ms,
                    case_index,
                    case,
                    verdict: TRACE_VERDICT_MANUAL_MARK,
                    classified_direction: None,
                    start,
                    end,
                    duration_ms: self.swipe_debug.last_duration_ms,
                    move_count: self.swipe_debug.last_move_count,
                    max_travel_px: self.swipe_debug.last_max_travel_px,
                    release_debounce_ms: self.swipe_debug.last_release_debounce_ms,
                    dropout_count: self.swipe_debug.last_dropout_count,
                },
            );
            self.advance_swipe_case_or_complete(t_ms, WizardHint::ManualMarkNext, WizardHint::ManualMarkDone);
        }
        self.hint != prev_hint || !same_attempt(self.last_swipe, prev_last_swipe)
            || self.swipe_case_failed != prev_case_failed
            || self.swipe_case_attempts != prev_case_attempts
            || self.manual_swipe_marks != prev_manual_swipe_marks
    }

    /// Handles the continue / skip / exit button; reports whether anything
    /// changed.
    pub fn on_continue_button(&mut self, t_ms: u64) -> (changed: bool)
        ensures
            (changed, final(self)@) == continue_spec(old(self)@, t_ms),
    {
        let prev_phase = self.phase;
        let prev_hint = self.hint;
        let prev_trace_len = self.swipe_trace.len();
        let prev_last_swipe = self.last_swipe;
        match self.phase {
            WizardPhase::PrecisionMenu => {
                self.enter_swipe_phase(t_ms, WizardHint::GuidedSwipesReady);
            },
            WizardPhase::Calibrate | WizardPhase::PrecisionTest => {},
            WizardPhase::SwipeRight => {
                let case_index = self.swipe_case_index;
                let case = self.current_swipe_case(SCREEN_WIDTH, SCREEN_HEIGHT);
                let (start, end, duration_ms) = match self.last_swipe {
                    Some(last) => (last.start, last.end, self.swipe_debug.last_duration_ms),
                    None => (
                        self.swipe_debug.last_start,
                        self.swipe_debug.last_end,
                        self.swipe_debug.last_duration_ms,
                    ),
                };
                self.emit_swipe_case_trace(
                    SwipeCaseTraceInput {
                        t_ms,
                        case_index,
                        case,
                        verdict: TRACE_VERDICT_SKIP,
                        classified_direction: None,
                        start,
                        end,
                        duration_ms,
                        move_count: self.swipe_debug.last_move_count,
                        max_travel_px: self.swipe_debug.last_max_travel_px,
                        release_debounce_ms: self.swipe_debug.last_release_debounce_ms,
                        dropout_count: self.swipe_debug.last_dropout_count,
                    },
                );
                self.advance_swipe_case_or_complete(t_ms, WizardHint::CaseSkippedNext, WizardHint::CasesDoneSkip);
            },
            WizardPhase::Complete => {
                self.phase = WizardPhase::Closed;
            },
            WizardPhase::Closed => {},
        }
        proof {
            let (c, v) = continue_spec(old(self)@, t_ms);
            assert(self@ =~= v);
            assert(self@.swipe_trace == old(self)@.swipe_trace || self@.swipe_trace.len() == 0);
            if self@.swipe_trace.len() == 0 && old(self)@.swipe_trace.len() == 0 {
                assert(self@.swipe_trace =~= old(self)@.swipe_trace);
            }
            assert((self@.swipe_trace != old(self)@.swipe_trace) == (self@.swipe_trace.len()
                != old(self)@.swipe_trace.len()));
        }
        self.phase != prev_phase || self.hint != prev_hint || self.swipe_trace.len() != prev_trace_len
            || !same_attempt(self.last_swipe, prev_last_swipe)
    }

    /// Enters the guided swipes with `hint`.
    pub fn enter_swipe_phase(&mut self, t_ms: u64, hint: WizardHint)
        ensures
            final(self)@ == enter_swipe_view(old(self)@, t_ms, hint),
    {
        self.phase = WizardPhase::SwipeRight;
        self.hint = hint;
        self.calibration_pending_return = false;
        self.clear_swipe_debug();
        self.emit_swipe_session_event(TouchWizardSessionEvent::Start { t_ms });
        assert(self@ =~= enter_swipe_view(old(self)@, t_ms, hint));
    }

    /// Emits a session marker.
    pub fn emit_swipe_session_event(&mut self, event: TouchWizardSessionEvent)
        ensures
            final(self)@ == (WizardView { session_events: old(self)@.session_events.push(event), ..old(self)@ }),
    {
        self.session_events.push(event);
        assert(self@ =~= (WizardView { session_events: old(self)@.session_events.push(event), ..old(self)@ }));
    }

    /// Emits the record of a swipe case.
    pub fn emit_swipe_case_trace(&mut self, trace: SwipeCaseTraceInput)
        ensures
            final(self)@ == emit_trace_view(old(self)@, trace),
    {
        let (expected_direction, expected_speed) = match trace.case {
            Some(spec) => (trace_direction_code(spec.direction), trace_speed_code(spec.speed)),
            None => (TRACE_DIRECTION_UNKNOWN, TRACE_SPEED_UNKNOWN),
        };
        let classified_direction = match trace.classified_direction {
            Some(d) => trace_direction_code(d),
            None => TRACE_DIRECTION_UNKNOWN,
        };
        let sample = TouchWizardSwipeTraceSample {
            t_ms: trace.t_ms,
            case_index: trace.case_index,
            attempt: self.swipe_case_attempts,
            expected_direction,
            expected_speed,
            verdict: trace.verdict,
            classified_direction,
            start_x: clamp_to_u16(trace.start.x),
            start_y: clamp_to_u16(trace.start.y),
            end_x: clamp_to_u16(trace.end.x),
            end_y: clamp_to_u16(trace.end.y),
            duration_ms: trace.duration_ms,
            move_count: trace.move_count,
            max_travel_px: trace.max_travel_px,
            release_debounce_ms: trace.release_debounce_ms,
            dropout_count: trace.dropout_count,
        };
        self.trace_samples.push(sample);
        assert(self@ =~= emit_trace_view(old(self)@, trace));
    }

    /// Heading of the current phase.
    pub fn step_progress_text(&self) -> (r: &'static str)
        ensures
            r@ == step_progress_spec(self.phase)@,
    {
        match self.phase {
            WizardPhase::PrecisionMenu => "Touch precision",
            WizardPhase::Calibrate => "Calibration",
            WizardPhase::PrecisionTest => "Precision test",
            WizardPhase::SwipeRight => "Guided Swipes",
            WizardPhase::Complete => "Done",
            WizardPhase::Closed => "",
        }
    }

    /// Main instruction of the current phase.
    pub fn primary_instruction(&self) -> (r: &'static str)
        ensures
            r@ == primary_instruction_spec(self.phase)@,
    {
        match self.phase {
            WizardPhase::PrecisionMenu => "Calibrate or test touch precision.",
            WizardPhase::Calibrate => "Touch all four corner dots.",
            WizardPhase::PrecisionTest => "Tap to show the selected coordinates.",
            WizardPhase::SwipeRight => "Perform the guided swipe case.",
            WizardPhase::Complete => "Touch test complete.",
            WizardPhase::Closed => "",
        }
    }

    /// Secondary instruction of the current phase.
    pub fn secondary_instruction(&self) -> (r: &'static str)
        ensures
            r@ == secondary_instruction_spec(self.phase)@,
    {
        match self.phase {
            WizardPhase::PrecisionMenu => "Continue opens guided swipes.",
            WizardPhase::Calibrate => "Completed dots become solid.",
            WizardPhase::PrecisionTest => "Use the center toggle to switch modes.",
            WizardPhase::SwipeRight => "FROM->TO + direction. Speed logged. Use I JUST SWIPED or SKIP CASE.",
            WizardPhase::Complete => "Exit with the EXIT button.",
            WizardPhase::Closed => "",
        }
    }
}

/// Heading text of each phase.
pub open spec fn step_progress_spec(p: WizardPhase) -> &'static str {
    match p {
        WizardPhase::PrecisionMenu => "Touch precision",
        WizardPhase::Calibrate => "Calibration",
        WizardPhase::PrecisionTest => "Precision test",
        WizardPhase::SwipeRight => "Guided Swipes",
        WizardPhase::Complete => "Done",
        WizardPhase::Closed => "",
    }
}

/// Main instruction text of each phase.
pub open spec fn primary_instruction_spec(p: WizardPhase) -> &'static str {
    match p {
        WizardPhase::PrecisionMenu => "Calibrate or test touch precision.",
        WizardPhase::Calibrate => "Touch all four corner dots.",
        WizardPhase::PrecisionTest => "Tap to show the selected coordinates.",
        WizardPhase::SwipeRight => "Perform the guided swipe case.",
        WizardPhase::Complete => "Touch test complete.",
        WizardPhase::Closed => "",
    }
}

/// Secondary instruction text of each phase.
pub open spec fn secondary_instruction_spec(p: WizardPhase) -> &'static str {
    match p {
        WizardPhase::PrecisionMenu => "Continue opens guided swipes.",
        WizardPhase::Calibrate => "Completed dots become solid.",
        WizardPhase::PrecisionTest => "Use the center toggle to switch modes.",
        WizardPhase::SwipeRight => "FROM->TO + direction. Speed logged. Use I JUST SWIPED or SKIP CASE.",
        WizardPhase::Complete => "Exit with the EXIT button.",
        WizardPhase::Closed => "",
    }
}

fn sat_inc(v: u16) -> (r: u16)
    ensures
        r == inc16(v),
{
    if v < 65535 { v + 1 } else { v }
}

} // verus!
