//! State of the touch calibration and swipe-diagnostic wizard.
use vstd::prelude::*;

use super::event::{TouchSwipeDirection, TouchWizardSessionEvent, TouchWizardSwipeTraceSample};

verus! {

/// Width of the panel the guided swipe cases are laid out on.
pub const SCREEN_WIDTH: i32 = 600;
/// Height of the panel the guided swipe cases are laid out on.
pub const SCREEN_HEIGHT: i32 = 600;

/// Number of corner dots the calibration collects.
pub const CALIBRATION_CORNER_COUNT: usize = 4;
/// Distance of each corner dot from the inclusive panel edges.
pub const CALIBRATION_MARGIN_PX: i32 = 52;
/// Largest accepted distance between a touch and the nearest open corner dot;
/// also the smallest accepted span between opposite observed edges.
pub const CALIBRATION_CAPTURE_RADIUS_PX: i32 = 48;

/// Number of guided swipe cases: four rightward lanes, then four downward.
pub const SWIPE_CASE_COUNT: u8 = 8;
/// Number of trace points kept for the swipe being drawn.
pub const SWIPE_TRACE_MAX_POINTS: usize = 32;
/// Radius of the FROM circle a guided swipe must start in.
pub const SWIPE_CASE_START_RADIUS_PX: i32 = 96;
/// Radius of the TO circle a guided swipe must end in.
pub const SWIPE_CASE_END_RADIUS_PX: i32 = 48;
/// Whether a guided swipe must also match the case's speed tier.
pub const SWIPE_CASE_REQUIRE_SPEED_MATCH: bool = false;

pub const CONTINUE_BUTTON_WIDTH: i32 = 220;
pub const CONTINUE_BUTTON_HEIGHT: i32 = 48;
pub const SWIPE_MARK_BUTTON_WIDTH: i32 = 260;
pub const SWIPE_MARK_BUTTON_HEIGHT: i32 = 44;

pub const TRACE_VERDICT_PASS: u8 = 0;
pub const TRACE_VERDICT_MISMATCH: u8 = 1;
pub const TRACE_VERDICT_SKIP: u8 = 2;
pub const TRACE_VERDICT_RELEASE_NO_SWIPE: u8 = 3;
pub const TRACE_VERDICT_MANUAL_MARK: u8 = 4;
pub const TRACE_DIRECTION_UNKNOWN: u8 = 0xFF;
pub const TRACE_SPEED_UNKNOWN: u8 = 0xFF;

/// A point in panel pixels.
#[derive(Clone, Copy, Debug, PartialEq, Eq, Structural)]
pub struct SwipePoint {
    pub x: i32,
    pub y: i32,
}

/// A corner dot and where the touch controller reported the tap on it.
#[derive(Clone, Copy, Debug, PartialEq, Eq, Structural)]
pub struct TapObservation {
    pub target: SwipePoint,
    pub observed: SwipePoint,
}

/// Per-axis linear map from observed touch edges to the dot positions.
#[derive(Clone, Copy, Debug, PartialEq, Eq, Structural)]
pub struct TouchCalibration {
    pub observed_left: i32,
    pub observed_right: i32,
    pub observed_top: i32,
    pub observed_bottom: i32,
    pub target_left: i32,
    pub target_right: i32,
    pub target_top: i32,
    pub target_bottom: i32,
}

/// The wizard's screens.
#[derive(Clone, Copy, Debug, PartialEq, Eq, Structural)]
pub enum WizardPhase {
    PrecisionMenu,
    Calibrate,
    PrecisionTest,
    SwipeRight,
    Complete,
    Closed,
}

/// Which coordinates the precision test shows.
#[derive(Clone, Copy, Debug, PartialEq, Eq, Structural)]
pub enum TestCoordinateMode {
    Calibrated,
    Uncalibrated,
}

/// The last touch of the precision test, raw and calibrated.
#[derive(Clone, Copy, Debug, PartialEq, Eq, Structural)]
pub struct TestTouch {
    pub raw: SwipePoint,
    pub calibrated: SwipePoint,
}

/// Speed tier of a guided swipe, by gesture duration.
#[derive(Clone, Copy, Debug, PartialEq, Eq, Structural)]
pub enum SwipeSpeedTier {
    ExtraFast,
    Fast,
    Medium,
    Slow,
}

/// One guided swipe case: direction, speed and the FROM/TO targets.
#[derive(Clone, Copy, Debug, PartialEq, Eq, Structural)]
pub struct SwipeCaseSpec {
    pub direction: TouchSwipeDirection,
    pub speed: SwipeSpeedTier,
    pub start: SwipePoint,
    pub end: SwipePoint,
}

/// The last recorded attempt and whether it passed its case.
#[derive(Clone, Copy, Debug, PartialEq, Eq, Structural)]
pub struct SwipeAttempt {
    pub start: SwipePoint,
    pub end: SwipePoint,
    pub accepted: bool,
}

/// A release that has not yet been paired with its swipe classification.
#[derive(Clone, Copy, Debug, PartialEq, Eq, Structural)]
pub struct PendingSwipeRelease {
    pub t_ms: u64,
    pub start: SwipePoint,
    pub end: SwipePoint,
    pub duration_ms: u16,
    pub move_count: u16,
    pub max_travel_px: u16,
    pub release_debounce_ms: u16,
    pub dropout_count: u16,
}

/// Kind of the last event seen during the swipe phase.
#[derive(Clone, Copy, Debug, PartialEq, Eq, Structural)]
pub enum SwipeDebugKind {
    NoEvent,
    Down,
    Move,
    Up,
    Swipe(TouchSwipeDirection),
    Cancel,
}

/// Event counters and the last event's diagnostics during the swipe phase.
#[derive(Clone, Copy, Debug, PartialEq, Eq, Structural)]
pub struct SwipeDebugStats {
    pub down_count: u16,
    pub move_count: u16,
    pub up_count: u16,
    pub swipe_count: u16,
    pub cancel_count: u16,
    pub last_kind: SwipeDebugKind,
    pub last_start: SwipePoint,
    pub last_end: SwipePoint,
    pub last_duration_ms: u16,
    pub last_move_count: u16,
    pub last_max_travel_px: u16,
    pub last_release_debounce_ms: u16,
    pub last_dropout_count: u16,
}

pub open spec fn origin() -> SwipePoint {
    SwipePoint { x: 0, y: 0 }
}

pub open spec fn empty_debug_stats() -> SwipeDebugStats {
    SwipeDebugStats {
        down_count: 0,
        move_count: 0,
        up_count: 0,
        swipe_count: 0,
        cancel_count: 0,
        last_kind: SwipeDebugKind::NoEvent,
        last_start: origin(),
        last_end: origin(),
        last_duration_ms: 0,
        last_move_count: 0,
        last_max_travel_px: 0,
        last_release_debounce_ms: 0,
        last_dropout_count: 0,
    }
}

impl SwipeDebugStats {
    /// Cleared statistics.
    pub fn cleared() -> (r: Self)
        ensures
            r == empty_debug_stats(),
    {
        SwipeDebugStats {
            down_count: 0,
            move_count: 0,
            up_count: 0,
            swipe_count: 0,
            cancel_count: 0,
            last_kind: SwipeDebugKind::NoEvent,
            last_start: SwipePoint { x: 0, y: 0 },
            last_end: SwipePoint { x: 0, y: 0 },
            last_duration_ms: 0,
            last_move_count: 0,
            last_max_travel_px: 0,
            last_release_debounce_ms: 0,
            last_dropout_count: 0,
        }
    }
}

/// The footer hint; each variant stands for one distinct text.
#[derive(Clone, Copy, Debug, PartialEq, Eq, Structural)]
pub enum WizardHint {
    Empty,
    CalibrateFirst,
    TouchEachCornerDot,
    TouchUnmarkedCornerDot,
    CornerRecorded,
    CalibrationComplete,
    CalibrationInvalid,
    CalibrationTouchCanceled,
    CalibrationReady,
    TapToCompare,
    CalibratedCircles,
    UncalibratedCrosses,
    GuidedSwipesReady,
    ManualMarkNext,
    ManualMarkDone,
    CaseSkippedNext,
    CasesDoneSkip,
    StartOutsideFrom,
    SwipePassNext,
    AllCasesDone,
    SwipeMismatchNext,
    ReleaseOutsideFrom,
    ReleaseWithoutSwipe,
    SwipeTouchCanceled,
}

/// The text shown for a hint.
pub open spec fn hint_text(h: WizardHint) -> &'static str {
    match h {
        WizardHint::Empty => "",
        WizardHint::CalibrateFirst => "Calibrate precision before testing swipes.",
        WizardHint::TouchEachCornerDot => "Touch each corner dot.",
        WizardHint::TouchUnmarkedCornerDot => "Touch an unmarked corner dot.",
        WizardHint::CornerRecorded => "Corner recorded. Touch the remaining dots.",
        WizardHint::CalibrationComplete => "Calibration complete. Release to return.",
        WizardHint::CalibrationInvalid => "Calibration invalid. Release and retry.",
        WizardHint::CalibrationTouchCanceled => "Touch canceled. Touch the remaining dots.",
        WizardHint::CalibrationReady => "Calibration ready. Test it or continue to swipes.",
        WizardHint::TapToCompare => "Tap anywhere to compare touch coordinates.",
        WizardHint::CalibratedCircles => "Calibrated touches are circles.",
        WizardHint::UncalibratedCrosses => "Uncalibrated touches are crosses.",
        WizardHint::GuidedSwipesReady => "Guided swipes ready.",
        WizardHint::ManualMarkNext => "Manual swipe mark recorded. Next case.",
        WizardHint::ManualMarkDone => "Manual swipe mark recorded. Cases done. Press CONTINUE.",
        WizardHint::CaseSkippedNext => "Case skipped. Next case.",
        WizardHint::CasesDoneSkip => "Swipe cases done. Press CONTINUE to exit.",
        WizardHint::StartOutsideFrom => "Start outside FROM circle. Retry this case.",
        WizardHint::SwipePassNext => "Swipe PASS. Next case.",
        WizardHint::AllCasesDone => "All swipe cases done. Press CONTINUE to exit.",
        WizardHint::SwipeMismatchNext => "Swipe recorded (mismatch). Next case.",
        WizardHint::ReleaseOutsideFrom => "Release outside FROM circle. Retry this case.",
        WizardHint::ReleaseWithoutSwipe => "Release w/o swipe. Retry this case.",
        WizardHint::SwipeTouchCanceled => "Touch canceled. Retry current step.",
    }
}

/// The title of a phase's screen; a closed wizard shows nothing.
pub open spec fn phase_title_spec(phase: WizardPhase) -> &'static str {
    match phase {
        WizardPhase::PrecisionMenu => "TOUCH PRECISION",
        WizardPhase::Calibrate => "CALIBRATE TOUCH",
        WizardPhase::PrecisionTest => "TEST TOUCH PRECISION",
        WizardPhase::SwipeRight => "TOUCH INPUT TEST",
        WizardPhase::Complete => "TOUCH INPUT TEST",
        WizardPhase::Closed => "",
    }
}

/// The title of a phase's screen.
pub fn phase_title(phase: WizardPhase) -> (r: &'static str)
    ensures
        r == phase_title_spec(phase),
{
    match phase {
        WizardPhase::PrecisionMenu => "TOUCH PRECISION",
        WizardPhase::Calibrate => "CALIBRATE TOUCH",
        WizardPhase::PrecisionTest => "TEST TOUCH PRECISION",
        WizardPhase::SwipeRight => "TOUCH INPUT TEST",
        WizardPhase::Complete => "TOUCH INPUT TEST",
        WizardPhase::Closed => "",
    }
}

/// The precision menu's status line.
pub fn calibration_status(calibrated: bool) -> (r: &'static str)
    ensures
        r == (if calibrated { "Calibration ready" } else { "Not calibrated" }),
{
    if calibrated {
        "Calibration ready"
    } else {
        "Not calibrated"
    }
}

/// The label of the precision test's coordinate toggle.
pub fn test_mode_label(mode: TestCoordinateMode) -> (r: &'static str)
    ensures
        r == (match mode {
            TestCoordinateMode::Calibrated => "CALIBRATED: CIRCLE",
            TestCoordinateMode::Uncalibrated => "UNCALIBRATED: X",
        }),
{
    match mode {
        TestCoordinateMode::Calibrated => "CALIBRATED: CIRCLE",
        TestCoordinateMode::Uncalibrated => "UNCALIBRATED: X",
    }
}

/// The footer line: the current hint, or an invitation to choose an action
/// when there is none.
pub fn footer_text(hint: WizardHint) -> (r: &'static str)
    ensures
        r == (if hint == WizardHint::Empty { "Choose an action." } else { hint_text(hint) }),
{
    match hint {
        WizardHint::Empty => "Choose an action.",
        _ => hint.text(),
    }
}

impl WizardHint {
    /// The text shown for this hint.
    pub fn text(self) -> (r: &'static str)
        ensures
            r == hint_text(self),
    {
        match self {
            WizardHint::Empty => "",
            WizardHint::CalibrateFirst => "Calibrate precision before testing swipes.",
            WizardHint::TouchEachCornerDot => "Touch each corner dot.",
            WizardHint::TouchUnmarkedCornerDot => "Touch an unmarked corner dot.",
            WizardHint::CornerRecorded => "Corner recorded. Touch the remaining dots.",
            WizardHint::CalibrationComplete => "Calibration complete. Release to return.",
            WizardHint::CalibrationInvalid => "Calibration invalid. Release and retry.",
            WizardHint::CalibrationTouchCanceled => "Touch canceled. Touch the remaining dots.",
            WizardHint::CalibrationReady => "Calibration ready. Test it or continue to swipes.",
            WizardHint::TapToCompare => "Tap anywhere to compare touch coordinates.",
            WizardHint::CalibratedCircles => "Calibrated touches are circles.",
            WizardHint::UncalibratedCrosses => "Uncalibrated touches are crosses.",
            WizardHint::GuidedSwipesReady => "Guided swipes ready.",
            WizardHint::ManualMarkNext => "Manual swipe mark recorded. Next case.",
            WizardHint::ManualMarkDone => "Manual swipe mark recorded. Cases done. Press CONTINUE.",
            WizardHint::CaseSkippedNext => "Case skipped. Next case.",
            WizardHint::CasesDoneSkip => "Swipe cases done. Press CONTINUE to exit.",
            WizardHint::StartOutsideFrom => "Start outside FROM circle. Retry this case.",
            WizardHint::SwipePassNext => "Swipe PASS. Next case.",
            WizardHint::AllCasesDone => "All swipe cases done. Press CONTINUE to exit.",
            WizardHint::SwipeMismatchNext => "Swipe recorded (mismatch). Next case.",
            WizardHint::ReleaseOutsideFrom => "Release outside FROM circle. Retry this case.",
            WizardHint::ReleaseWithoutSwipe => "Release w/o swipe. Retry this case.",
            WizardHint::SwipeTouchCanceled => "Touch canceled. Retry current step.",
        }
    }
}

/// The touch calibration and guided-swipe diagnostic wizard.
///
/// `swipe_trace` holds the polyline of the swipe in progress, at most
/// `SWIPE_TRACE_MAX_POINTS` points; `session_events` and `trace_samples`
/// hold the diagnostic records the wizard has emitted and not yet handed on.
#[derive(Debug)]
pub struct TouchCalibrationWizard {
    pub phase: WizardPhase,
    pub hint: WizardHint,
    pub calibration_observations: [Option<TapObservation>; 4],
    pub calibration: Option<TouchCalibration>,
    pub calibration_pending_return: bool,
    pub test_mode: TestCoordinateMode,
    pub last_test_touch: Option<TestTouch>,
    pub swipe_trace: Vec<SwipePoint>,
    pub last_swipe: Option<SwipeAttempt>,
    pub swipe_trace_pending_points: u16,
    pub swipe_debug: SwipeDebugStats,
    pub swipe_case_index: u8,
    pub swipe_case_passed: u8,
    pub swipe_case_failed: u16,
    pub swipe_case_attempts: u16,
    pub manual_swipe_marks: u16,
    pub pending_swipe_release: Option<PendingSwipeRelease>,
    pub session_events: Vec<TouchWizardSessionEvent>,
    pub trace_samples: Vec<TouchWizardSwipeTraceSample>,
}

/// The wizard as a mathematical value: its fields, with the trace and the
/// emitted records as sequences.
pub struct WizardView {
    pub phase: WizardPhase,
    pub hint: WizardHint,
    pub calibration_observations: Seq<Option<TapObservation>>,
    pub calibration: Option<TouchCalibration>,
    pub calibration_pending_return: bool,
    pub test_mode: TestCoordinateMode,
    pub last_test_touch: Option<TestTouch>,
    pub swipe_trace: Seq<SwipePoint>,
    pub last_swipe: Option<SwipeAttempt>,
    pub swipe_trace_pending_points: u16,
    pub swipe_debug: SwipeDebugStats,
    pub swipe_case_index: u8,
    pub swipe_case_passed: u8,
    pub swipe_case_failed: u16,
    pub swipe_case_attempts: u16,
    pub manual_swipe_marks: u16,
    pub pending_swipe_release: Option<PendingSwipeRelease>,
    pub session_events: Seq<TouchWizardSessionEvent>,
    pub trace_samples: Seq<TouchWizardSwipeTraceSample>,
}

impl View for TouchCalibrationWizard {
    type V = WizardView;

    open spec fn view(&self) -> WizardView {
        WizardView {
            phase: self.phase,
            hint: self.hint,
            calibration_observations: self.calibration_observations@,
            calibration: self.calibration,
            calibration_pending_return: self.calibration_pending_return,
            test_mode: self.test_mode,
            last_test_touch: self.last_test_touch,
            swipe_trace: self.swipe_trace@,
            last_swipe: self.last_swipe,
            swipe_trace_pending_points: self.swipe_trace_pending_points,
            swipe_debug: self.swipe_debug,
            swipe_case_index: self.swipe_case_index,
            swipe_case_passed: self.swipe_case_passed,
            swipe_case_failed: self.swipe_case_failed,
            swipe_case_attempts: self.swipe_case_attempts,
            manual_swipe_marks: self.manual_swipe_marks,
            pending_swipe_release: self.pending_swipe_release,
            session_events: self.session_events@,
            trace_samples: self.trace_samples@,
        }
    }
}

/// A freshly constructed wizard: on the precision menu when enabled,
/// otherwise closed, with everything else empty.
pub open spec fn initial_view(enabled: bool) -> WizardView {
    WizardView {
        phase: if enabled { WizardPhase::PrecisionMenu } else { WizardPhase::Closed },
        hint: if enabled { WizardHint::CalibrateFirst } else { WizardHint::Empty },
        calibration_observations: seq![None, None, None, None],
        calibration: None,
        calibration_pending_return: false,
        test_mode: TestCoordinateMode::Calibrated,
        last_test_touch: None,
        swipe_trace: Seq::empty(),
        last_swipe: None,
        swipe_trace_pending_points: 0,
        swipe_debug: empty_debug_stats(),
        swipe_case_index: 0,
        swipe_case_passed: 0,
        swipe_case_failed: 0,
        swipe_case_attempts: 0,
        manual_swipe_marks: 0,
        pending_swipe_release: None,
        session_events: Seq::empty(),
        trace_samples: Seq::empty(),
    }
}

/// Number of corners observed so far.
pub open spec fn observed_corner_count(obs: Seq<Option<TapObservation>>) -> nat
    decreases obs.len(),
{
    if obs.len() == 0 {
        0
    } else {
        observed_corner_count(obs.drop_last()) + (if obs.last() is Some { 1nat } else { 0nat })
    }
}

impl TouchCalibrationWizard {
    /// A wizard on its precision menu when `enabled`, otherwise closed.
    pub fn new(enabled: bool) -> (r: Self)
        ensures
            r@ == initial_view(enabled),
    {
        let r = TouchCalibrationWizard {
            phase: if enabled { WizardPhase::PrecisionMenu } else { WizardPhase::Closed },
            hint: if enabled { WizardHint::CalibrateFirst } else { WizardHint::Empty },
            calibration_observations: [None, None, None, None],
            calibration: None,
            calibration_pending_return: false,
            test_mode: TestCoordinateMode::Calibrated,
            last_test_touch: None,
            swipe_trace: Vec::new(),
            last_swipe: None,
            swipe_trace_pending_points: 0,
            swipe_debug: SwipeDebugStats::cleared(),
            swipe_case_index: 0,
            swipe_case_passed: 0,
            swipe_case_failed: 0,
            swipe_case_attempts: 0,
            manual_swipe_marks: 0,
            pending_swipe_release: None,
            session_events: Vec::new(),
            trace_samples: Vec::new(),
        };
        assert(r@.calibration_observations =~= seq![None, None, None, None]);
        assert(r@ =~= initial_view(enabled));
        r
    }

    /// The wizard runs until it reaches `Closed`.
    pub fn is_active(&self) -> (r: bool)
        ensures
            r == (self.phase != WizardPhase::Closed),
    {
        !matches!(self.phase, WizardPhase::Closed)
    }

    /// Number of corners recorded in the current calibration run.
    pub fn calibration_count(&self) -> (r: usize)
        ensures
            r == observed_corner_count(self@.calibration_observations),
            r <= 4,
    {
        let mut count: usize = 0;
        let mut i: usize = 0;
        while i < 4
            invariant
                i <= 4,
                count == observed_corner_count(self.calibration_observations@.subrange(0, i as int)),
                count <= i,
            decreases 4 - i,
        {
            proof {
                let s = self.calibration_observations@;
                assert(s.subrange(0, i + 1).drop_last() =~= s.subrange(0, i as int));
            }
            if self.calibration_observations[i].is_some() {
                count = count + 1;
            }
            i = i + 1;
        }
        proof {
            assert(self.calibration_observations@.subrange(0, 4) =~= self.calibration_observations@);
        }
        count
    }

    /// Hands out the session markers emitted since the last call.
    pub fn take_session_events(&mut self) -> (r: Vec<TouchWizardSessionEvent>)
        ensures
            r@ == old(self)@.session_events,
            final(self)@ == (WizardView { session_events: Seq::empty(), ..old(self)@ }),
    {
        let mut out: Vec<TouchWizardSessionEvent> = Vec::new();
        core::mem::swap(&mut out, &mut self.session_events);
        assert(self@ =~= (WizardView { session_events: Seq::empty(), ..old(self)@ }));
        out
    }

    /// Hands out the swipe-case records emitted since the last call.
    pub fn take_trace_samples(&mut self) -> (r: Vec<TouchWizardSwipeTraceSample>)
        ensures
            r@ == old(self)@.trace_samples,
            final(self)@ == (WizardView { trace_samples: Seq::empty(), ..old(self)@ }),
    {
        let mut out: Vec<TouchWizardSwipeTraceSample> = Vec::new();
        core::mem::swap(&mut out, &mut self.trace_samples);
        assert(self@ =~= (WizardView { trace_samples: Seq::empty(), ..old(self)@ }));
        out
    }
}

} // verus!
