//! Guided swipe cases, the swipe trace and the swipe-phase statistics.
use vstd::prelude::*;

use crate::arith::trunc_div;
use super::event::{TouchEvent, TouchEventKind, TouchSwipeDirection, TouchWizardSessionEvent};
use super::geometry::{lemma_squared_distance_exact, lemma_squared_distance_metric, sq_dist, squared_distance_i32};
use super::wizard::{
    empty_debug_stats, SwipeCaseSpec, SwipeDebugKind, SwipeDebugStats, SwipePoint, SwipeSpeedTier,
    TouchCalibrationWizard, WizardHint, WizardPhase, WizardView, SWIPE_CASE_COUNT, SWIPE_CASE_END_RADIUS_PX,
    SWIPE_CASE_REQUIRE_SPEED_MATCH, SWIPE_CASE_START_RADIUS_PX, SWIPE_TRACE_MAX_POINTS,
};

verus! {

/// Everything one swipe-case record is built from.
#[derive(Clone, Copy, Debug, PartialEq, Eq, Structural)]
pub struct SwipeCaseTraceInput {
    pub t_ms: u64,
    pub case_index: u8,
    pub case: Option<SwipeCaseSpec>,
    pub verdict: u8,
    pub classified_direction: Option<TouchSwipeDirection>,
    pub start: SwipePoint,
    pub end: SwipePoint,
    pub duration_ms: u16,
    pub move_count: u16,
    pub max_travel_px: u16,
    pub release_debounce_ms: u16,
    pub dropout_count: u16,
}

/// Speed tier a lane index selects: extra fast, fast, medium, slow.
pub open spec fn lane_speed(lane: int) -> SwipeSpeedTier {
    if lane == 0 {
        SwipeSpeedTier::ExtraFast
    } else if lane == 1 {
        SwipeSpeedTier::Fast
    } else if lane == 2 {
        SwipeSpeedTier::Medium
    } else {
        SwipeSpeedTier::Slow
    }
}

/// Case `idx` on a `width` x `height` surface: cases 0-3 are rightward
/// swipes across successive lanes, cases 4-7 downward ones; the lane also
/// picks the speed tier. There is no case from `SWIPE_CASE_COUNT` on.
pub open spec fn swipe_case_spec(idx: int, width: int, height: int) -> Option<SwipeCaseSpec> {
    if idx >= SWIPE_CASE_COUNT {
        None
    } else {
        let lane = idx % 4;
        let speed = lane_speed(lane);
        if idx < 4 {
            let y = trunc_div(height, 3) + 24 + lane * 34;
            Some(SwipeCaseSpec {
                direction: TouchSwipeDirection::Right,
                speed,
                start: SwipePoint { x: trunc_div(width, 6) as i32, y: y as i32 },
                end: SwipePoint { x: trunc_div(width * 5, 6) as i32, y: y as i32 },
            })
        } else {
            let x = trunc_div(width, 2) - 54 + lane * 36;
            Some(SwipeCaseSpec {
                direction: TouchSwipeDirection::Down,
                speed,
                start: SwipePoint { x: x as i32, y: (trunc_div(height, 3) - 16) as i32 },
                end: SwipePoint { x: x as i32, y: trunc_div(height * 3, 4) as i32 },
            })
        }
    }
}

/// Surface sizes on which the case layout arithmetic cannot overflow.
pub open spec fn case_layout_fits(width: int, height: int) -> bool {
    -0x1999_9999 <= width <= 0x1999_9999 && -0x2aaa_aaaa <= height <= 0x2aaa_aaaa
}

/// The trace after appending `p`: the first point starts it, a point within
/// three pixels of the last one is dropped, and a full trace drops its
/// oldest point.
pub open spec fn append_trace(t: Seq<SwipePoint>, p: SwipePoint) -> Seq<SwipePoint> {
    if t.len() == 0 {
        seq![p]
    } else if sq_dist(p.x as int, p.y as int, t.last().x as int, t.last().y as int) < 9 {
        t
    } else if t.len() < SWIPE_TRACE_MAX_POINTS {
        t.push(p)
    } else {
        t.drop_first().push(p)
    }
}

/// The trace started at `(sx, sy)` by a touch that is now at `(x, y)`.
pub open spec fn trace_down(sx: int, sy: int, x: int, y: int) -> Seq<SwipePoint> {
    let first = seq![SwipePoint { x: sx as i32, y: sy as i32 }];
    if sq_dist(sx, sy, x, y) >= 9 {
        append_trace(first, SwipePoint { x: x as i32, y: y as i32 })
    } else {
        first
    }
}

/// Speed tier of a gesture of `duration_ms`.
pub open spec fn speed_tier_spec(duration_ms: int) -> SwipeSpeedTier {
    if duration_ms <= 260 {
        SwipeSpeedTier::ExtraFast
    } else if duration_ms <= 520 {
        SwipeSpeedTier::Fast
    } else if duration_ms <= 900 {
        SwipeSpeedTier::Medium
    } else {
        SwipeSpeedTier::Slow
    }
}

/// The swipe started inside the case's FROM circle.
pub open spec fn start_matches_spec(case: SwipeCaseSpec, start: SwipePoint) -> bool {
    sq_dist(start.x as int, start.y as int, case.start.x as int, case.start.y as int)
        <= SWIPE_CASE_START_RADIUS_PX * SWIPE_CASE_START_RADIUS_PX
}

/// The swipe passes its case: it was classified as a swipe in the case's
/// direction, started in the FROM circle, ended in the TO circle and, when
/// speed matching is on, has the case's speed tier.
pub open spec fn case_matches_spec(
    case: SwipeCaseSpec,
    start: SwipePoint,
    end: SwipePoint,
    duration_ms: int,
    direction: Option<TouchSwipeDirection>,
    classified_as_swipe: bool,
) -> bool {
    &&& classified_as_swipe
    &&& start_matches_spec(case, start)
    &&& sq_dist(end.x as int, end.y as int, case.end.x as int, case.end.y as int)
        <= SWIPE_CASE_END_RADIUS_PX * SWIPE_CASE_END_RADIUS_PX
    &&& direction == Some(case.direction)
    &&& (!SWIPE_CASE_REQUIRE_SPEED_MATCH || speed_tier_spec(duration_ms) == case.speed)
}

/// Code of a direction in the swipe-case records.
pub open spec fn direction_code_spec(d: TouchSwipeDirection) -> u8 {
    match d {
        TouchSwipeDirection::Left => 0,
        TouchSwipeDirection::Right => 1,
        TouchSwipeDirection::Up => 2,
        TouchSwipeDirection::Down => 3,
    }
}

/// Code of a speed tier in the swipe-case records.
pub open spec fn speed_code_spec(s: SwipeSpeedTier) -> u8 {
    match s {
        SwipeSpeedTier::ExtraFast => 0,
        SwipeSpeedTier::Fast => 1,
        SwipeSpeedTier::Medium => 2,
        SwipeSpeedTier::Slow => 3,
    }
}

/// `value` clamped into `0..=u16::MAX`.
pub open spec fn clamp_u16_spec(value: int) -> u16 {
    if value < 0 {
        0
    } else if value > u16::MAX {
        u16::MAX
    } else {
        value as u16
    }
}

/// Speed tier of a gesture lasting `duration_ms`.
pub fn swipe_speed_from_duration(duration_ms: u16) -> (r: SwipeSpeedTier)
    ensures
        r == speed_tier_spec(duration_ms as int),
{
    if duration_ms <= 260 {
        SwipeSpeedTier::ExtraFast
    } else if duration_ms <= 520 {
        SwipeSpeedTier::Fast
    } else if duration_ms <= 900 {
        SwipeSpeedTier::Medium
    } else {
        SwipeSpeedTier::Slow
    }
}

/// Whether a swipe passes its guided case.
pub fn swipe_case_matches(
    case: SwipeCaseSpec,
    start: SwipePoint,
    end: SwipePoint,
    duration_ms: u16,
    direction: Option<TouchSwipeDirection>,
    classified_as_swipe: bool,
) -> (r: bool)
    ensures
        r == case_matches_spec(case, start, end, duration_ms as int, direction, classified_as_swipe),
{
    let start_ok = swipe_start_matches(case, start);
    let end_ok = squared_distance_i32(end.x, end.y, case.end.x, case.end.y)
        <= SWIPE_CASE_END_RADIUS_PX * SWIPE_CASE_END_RADIUS_PX;
    let direction_ok = match direction {
        Some(d) => d == case.direction,
        None => false,
    };
    let speed_ok = !SWIPE_CASE_REQUIRE_SPEED_MATCH || swipe_speed_from_duration(duration_ms) == case.speed;
    classified_as_swipe && start_ok && end_ok && direction_ok && speed_ok
}

/// Whether a swipe started inside the case's FROM circle.
pub fn swipe_start_matches(case: SwipeCaseSpec, start: SwipePoint) -> (r: bool)
    ensures
        r == start_matches_spec(case, start),
{
    squared_distance_i32(start.x, start.y, case.start.x, case.start.y)
        <= SWIPE_CASE_START_RADIUS_PX * SWIPE_CASE_START_RADIUS_PX
}

/// Record code of a swipe direction.
pub fn trace_direction_code(direction: TouchSwipeDirection) -> (r: u8)
    ensures
        r == direction_code_spec(direction),
{
    match direction {
        TouchSwipeDirection::Left => 0,
        TouchSwipeDirection::Right => 1,
        TouchSwipeDirection::Up => 2,
        TouchSwipeDirection::Down => 3,
    }
}

/// Record code of a speed tier.
pub fn trace_speed_code(speed: SwipeSpeedTier) -> (r: u8)
    ensures
        r == speed_code_spec(speed),
{
    match speed {
        SwipeSpeedTier::ExtraFast => 0,
        SwipeSpeedTier::Fast => 1,
        SwipeSpeedTier::Medium => 2,
        SwipeSpeedTier::Slow => 3,
    }
}

/// `value` clamped into the `u16` range.
pub fn clamp_to_u16(value: i32) -> (r: u16)
    ensures
        r == clamp_u16_spec(value as int),
{
    if value < 0 {
        0
    } else if value > 65535 {
        65535
    } else {
        value as u16
    }
}

fn sat_inc_u16(v: u16) -> (r: u16)
    ensures
        r == (if v < u16::MAX { (v + 1) as u16 } else { u16::MAX }),
{
    if v < 65535 { v + 1 } else { v }
}

/// Statistics after recording `event` in the swipe phase.
pub open spec fn debug_after(s: SwipeDebugStats, e: TouchEvent) -> SwipeDebugStats {
    let inc = |v: u16| if v < u16::MAX { (v + 1) as u16 } else { u16::MAX };
    let base = SwipeDebugStats {
        last_start: SwipePoint { x: e.start_x as i32, y: e.start_y as i32 },
        last_end: SwipePoint { x: e.x as i32, y: e.y as i32 },
        last_duration_ms: e.duration_ms,
        last_move_count: e.move_count,
        last_max_travel_px: e.max_travel_px,
        last_release_debounce_ms: e.release_debounce_ms,
        last_dropout_count: e.dropout_count,
        ..s
    };
    match e.kind {
        TouchEventKind::Down => SwipeDebugStats { down_count: inc(s.down_count), last_kind: SwipeDebugKind::Down, ..base },
        TouchEventKind::Move => SwipeDebugStats { move_count: inc(s.move_count), last_kind: SwipeDebugKind::Move, ..base },
        TouchEventKind::Up => SwipeDebugStats { up_count: inc(s.up_count), last_kind: SwipeDebugKind::Up, ..base },
        TouchEventKind::Swipe(d) => SwipeDebugStats { swipe_count: inc(s.swipe_count), last_kind: SwipeDebugKind::Swipe(d), ..base },
        TouchEventKind::Cancel => SwipeDebugStats { cancel_count: inc(s.cancel_count), last_kind: SwipeDebugKind::Cancel, ..base },
        _ => base,
    }
}

/// The wizard with the swipe trace, statistics and case progress reset.
pub open spec fn cleared_swipe_view(w: WizardView) -> WizardView {
    WizardView {
        swipe_trace: Seq::empty(),
        last_swipe: None,
        swipe_trace_pending_points: 0,
        swipe_debug: empty_debug_stats(),
        swipe_case_index: 0,
        swipe_case_passed: 0,
        swipe_case_failed: 0,
        swipe_case_attempts: 0,
        manual_swipe_marks: 0,
        pending_swipe_release: None,
        ..w
    }
}

/// The wizard after a case is settled: on to the next case with a fresh
/// trace, or, after the last case, complete with the session's end marker.
pub open spec fn advance_view(w: WizardView, t_ms: u64, next_hint: WizardHint, done_hint: WizardHint) -> WizardView {
    if w.swipe_case_index + 1 < SWIPE_CASE_COUNT {
        WizardView {
            swipe_case_index: (w.swipe_case_index + 1) as u8,
            hint: next_hint,
            swipe_trace: Seq::empty(),
            swipe_trace_pending_points: 0,
            ..w
        }
    } else {
        WizardView {
            phase: WizardPhase::Complete,
            hint: done_hint,
            session_events: w.session_events.push(TouchWizardSessionEvent::End { t_ms }),
            ..w
        }
    }
}

/// The wizard with `e` counted in the statistics (in the swipe phase only).
pub open spec fn swipe_debug_view(w: WizardView, e: TouchEvent) -> WizardView {
    if w.phase == WizardPhase::SwipeRight {
        WizardView { swipe_debug: debug_after(w.swipe_debug, e), ..w }
    } else {
        w
    }
}

/// The wizard with a trace started at `(sx, sy)` by a touch now at `(x, y)`.
pub open spec fn trace_down_view(w: WizardView, sx: int, sy: int, x: int, y: int) -> WizardView {
    WizardView { swipe_trace: trace_down(sx, sy, x, y), swipe_trace_pending_points: 0, ..w }
}

/// The wizard after a move sample at `(x, y)`: an empty trace starts there;
/// otherwise the point is appended and, if the trace grew, counted as
/// pending.
pub open spec fn trace_move_view(w: WizardView, x: i32, y: i32) -> WizardView {
    if w.swipe_trace.len() == 0 {
        trace_down_view(w, x as int, y as int, x as int, y as int)
    } else {
        let t = append_trace(w.swipe_trace, SwipePoint { x, y });
        WizardView {
            swipe_trace: t,
            swipe_trace_pending_points: if t.len() != w.swipe_trace.len() {
                if w.swipe_trace_pending_points < u16::MAX {
                    (w.swipe_trace_pending_points + 1) as u16
                } else {
                    u16::MAX
                }
            } else {
                w.swipe_trace_pending_points
            },
            ..w
        }
    }
}

impl TouchCalibrationWizard {
    /// Resets the swipe trace, the statistics and the case progress.
    pub fn clear_swipe_debug(&mut self)
        ensures
            final(self)@ == cleared_swipe_view(old(self)@),
    {
        self.swipe_trace = Vec::new();
        self.last_swipe = None;
        self.swipe_trace_pending_points = 0;
        self.swipe_debug = SwipeDebugStats::cleared();
        self.swipe_case_index = 0;
        self.swipe_case_passed = 0;
        self.swipe_case_failed = 0;
        self.swipe_case_attempts = 0;
        self.manual_swipe_marks = 0;
        self.pending_swipe_release = None;
        assert(self@ =~= cleared_swipe_view(old(self)@));
    }

    /// The guided case the wizard is on, laid out for `width` x `height`.
    pub fn current_swipe_case(&self, width: i32, height: i32) -> (r: Option<SwipeCaseSpec>)
        requires
            case_layout_fits(width as int, height as int),
        ensures
            r == swipe_case_spec(self.swipe_case_index as int, width as int, height as int),
    {
        let idx = self.swipe_case_index;
        if idx >= SWIPE_CASE_COUNT {
            return None;
        }
        let speed = match idx % 4 {
            0 => SwipeSpeedTier::ExtraFast,
            1 => SwipeSpeedTier::Fast,
            2 => SwipeSpeedTier::Medium,
            _ => SwipeSpeedTier::Slow,
        };
        let lane = (idx % 4) as i32;
        let right_start_x = width / 6;
        let right_end_x = width * 5 / 6;
        let right_y = height / 3 + 24 + lane * 34;
        let down_x = width / 2 - 54 + lane * 36;
        let down_start_y = height / 3 - 16;
        let down_end_y = height * 3 / 4;
        if idx < 4 {
            Some(SwipeCaseSpec {
                direction: TouchSwipeDirection::Right,
                speed,
                start: SwipePoint { x: right_start_x, y: right_y },
                end: SwipePoint { x: right_end_x, y: right_y },
            })
        } else {
            Some(SwipeCaseSpec {
                direction: TouchSwipeDirection::Down,
                speed,
                start: SwipePoint { x: down_x, y: down_start_y },
                end: SwipePoint { x: down_x, y: down_end_y },
            })
        }
    }

    /// Moves on to the next case with `next_hint`, or, after the last case,
    /// completes the session with `done_hint` and emits its end marker.
    pub fn advance_swipe_case_or_complete(&mut self, t_ms: u64, next_hint: WizardHint, done_hint: WizardHint)
        ensures
            final(self)@ == advance_view(old(self)@, t_ms, next_hint, done_hint),
    {
        let next: u8 = if self.swipe_case_index < 255 { self.swipe_case_index + 1 } else { 255 };
        if next < SWIPE_CASE_COUNT {
            self.swipe_case_index = next;
            self.hint = next_hint;
            self.swipe_trace = Vec::new();
            self.swipe_trace_pending_points = 0;
        } else {
            self.phase = WizardPhase::Complete;
            self.hint = done_hint;
            self.session_events.push(TouchWizardSessionEvent::End { t_ms });
        }
        assert(self@ =~= advance_view(old(self)@, t_ms, next_hint, done_hint));
    }

    /// Records the event in the swipe-phase statistics (only in that phase).
    pub fn update_swipe_debug(&mut self, event: TouchEvent)
        ensures
            final(self)@ == swipe_debug_view(old(self)@, event),
    {
        if !matches!(self.phase, WizardPhase::SwipeRight) {
            return;
        }
        self.swipe_debug.last_start = SwipePoint { x: event.start_x as i32, y: event.start_y as i32 };
        self.swipe_debug.last_end = SwipePoint { x: event.x as i32, y: event.y as i32 };
        self.swipe_debug.last_duration_ms = event.duration_ms;
        self.swipe_debug.last_move_count = event.move_count;
        self.swipe_debug.last_max_travel_px = event.max_travel_px;
        self.swipe_debug.last_release_debounce_ms = event.release_debounce_ms;
        self.swipe_debug.last_dropout_count = event.dropout_count;
        match event.kind {
            TouchEventKind::Down => {
                self.swipe_debug.down_count = sat_inc_u16(self.swipe_debug.down_count);
                self.swipe_debug.last_kind = SwipeDebugKind::Down;
            },
            TouchEventKind::Move => {
                self.swipe_debug.move_count = sat_inc_u16(self.swipe_debug.move_count);
                self.swipe_debug.last_kind = SwipeDebugKind::Move;
            },
            TouchEventKind::Up => {
                self.swipe_debug.up_count = sat_inc_u16(self.swipe_debug.up_count);
                self.swipe_debug.last_kind = SwipeDebugKind::Up;
            },
            TouchEventKind::Swipe(direction) => {
                self.swipe_debug.swipe_count = sat_inc_u16(self.swipe_debug.swipe_count);
                self.swipe_debug.last_kind = SwipeDebugKind::Swipe(direction);
            },
            TouchEventKind::Cancel => {
                self.swipe_debug.cancel_count = sat_inc_u16(self.swipe_debug.cancel_count);
                self.swipe_debug.last_kind = SwipeDebugKind::Cancel;
            },
            TouchEventKind::Tap | TouchEventKind::LongPress => {},
        }
    }

    /// Starts a new trace at the gesture start; never asks for a redraw.
    pub fn on_swipe_trace_down(&mut self, start_x: i32, start_y: i32, x: i32, y: i32) -> (changed: bool)
        ensures
            !changed,
            final(self)@ == trace_down_view(old(self)@, start_x as int, start_y as int, x as int, y as int),
    {
        self.swipe_trace = Vec::new();
        self.swipe_trace.push(SwipePoint { x: start_x, y: start_y });
        if squared_distance_i32(start_x, start_y, x, y) >= 9 {
            self.append_swipe_trace_point(x, y);
        }
        self.swipe_trace_pending_points = 0;
        assert(self@ =~= trace_down_view(old(self)@, start_x as int, start_y as int, x as int, y as int));
        false
    }

    /// Extends the trace with a move sample; never asks for a redraw.
    pub fn on_swipe_trace_move(&mut self, x: i32, y: i32) -> (changed: bool)
        ensures
            !changed,
            final(self)@ == trace_move_view(old(self)@, x, y),
    {
        if self.swipe_trace.len() == 0 {
            return self.on_swipe_trace_down(x, y, x, y);
        }
        let prev_len = self.swipe_trace.len();
        self.append_swipe_trace_point(x, y);
        if self.swipe_trace.len() == prev_len {
            return false;
        }
        self.swipe_trace_pending_points = sat_inc_u16(self.swipe_trace_pending_points);
        assert(self@ =~= trace_move_view(old(self)@, x, y));
        false
    }

    /// Appends a point to the trace, dropping near-duplicates and the oldest
    /// point of a full trace.
    pub fn append_swipe_trace_point(&mut self, x: i32, y: i32)
        ensures
            final(self)@ == (WizardView {
                swipe_trace: append_trace(old(self)@.swipe_trace, SwipePoint { x, y }),
                ..old(self)@
            }),
    {
        let len = self.swipe_trace.len();
        if len == 0 {
            self.swipe_trace.push(SwipePoint { x, y });
            assert(self.swipe_trace@ =~= seq![SwipePoint { x, y }]);
            return;
        }
        let last = self.swipe_trace[len - 1];
        if squared_distance_i32(x, y, last.x, last.y) < 9 {
            return;
        }
        if len < SWIPE_TRACE_MAX_POINTS {
            self.swipe_trace.push(SwipePoint { x, y });
        } else {
            let ghost before = self.swipe_trace@;
            self.swipe_trace.remove(0);
            assert(self.swipe_trace@ =~= before.drop_first());
            self.swipe_trace.push(SwipePoint { x, y });
        }
    }
}

/// A swipe on panel pixels matches its case exactly when it was classified
/// as a swipe in the case's direction, started within
/// `SWIPE_CASE_START_RADIUS_PX` of the case's FROM point and ended within
/// `SWIPE_CASE_END_RADIUS_PX` of its TO point (speed is not judged).
pub proof fn lemma_swipe_case_match_is_geometric(
    case: SwipeCaseSpec,
    start: SwipePoint,
    end: SwipePoint,
    duration_ms: int,
    direction: Option<TouchSwipeDirection>,
    classified_as_swipe: bool,
)
    requires
        0 <= start.x < 32768 && 0 <= start.y < 32768,
        0 <= end.x < 32768 && 0 <= end.y < 32768,
        0 <= case.start.x < 32768 && 0 <= case.start.y < 32768,
        0 <= case.end.x < 32768 && 0 <= case.end.y < 32768,
    ensures
        case_matches_spec(case, start, end, duration_ms, direction, classified_as_swipe) <==> {
            &&& classified_as_swipe
            &&& direction == Some(case.direction)
            &&& (start.x - case.start.x) * (start.x - case.start.x) + (start.y - case.start.y) * (start.y
                - case.start.y) <= 96 * 96
            &&& (end.x - case.end.x) * (end.x - case.end.x) + (end.y - case.end.y) * (end.y - case.end.y) <= 48
                * 48
        },
{
    lemma_squared_distance_exact(start.x as int, start.y as int, case.start.x as int, case.start.y as int);
    lemma_squared_distance_exact(end.x as int, end.y as int, case.end.x as int, case.end.y as int);
}

/// A swipe performed exactly as its case asks (from the FROM point to the
/// TO point, classified in the case's direction) passes the case, for
/// every case and any duration.
pub proof fn lemma_exact_swipe_passes(case: SwipeCaseSpec, duration_ms: int)
    ensures
        case_matches_spec(case, case.start, case.end, duration_ms, Some(case.direction), true),
{
    lemma_squared_distance_metric(case.start.x as int, case.start.y as int, case.start.x as int, case.start.y as int);
    lemma_squared_distance_metric(case.end.x as int, case.end.y as int, case.end.x as int, case.end.y as int);
}

} // verus!
