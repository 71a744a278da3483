//! Four-corner touch calibration: collecting corner taps, deriving the
//! per-axis map and applying it to touch events.
use vstd::prelude::*;

use crate::arith::{
    max_i32, min_i32, sat_add_i32, sat_i32, sat_sub_i32, trunc_div, trunc_div_i64,
};
use super::event::TouchEvent;
use super::geometry::{sq_dist, squared_distance_i32};
use super::wizard::{
    SwipePoint, TapObservation, TouchCalibration, TouchCalibrationWizard, WizardHint, WizardPhase, WizardView,
    CALIBRATION_CAPTURE_RADIUS_PX, CALIBRATION_MARGIN_PX,
};

verus! {

/// Midpoint of two coordinates: the saturating sum halved toward zero.
pub open spec fn average_spec(a: int, b: int) -> int {
    trunc_div(sat_i32(a + b), 2)
}

/// `a.saturating_add(b) / 2`.
pub fn average(a: i32, b: i32) -> (r: i32)
    ensures
        r == average_spec(a as int, b as int),
{
    let s = sat_add_i32(a, b);
    let r = trunc_div_i64(s as i64, 2);
    r as i32
}

/// Clamps into the `i32` range.
pub open spec fn clamp_i32(v: int) -> int {
    sat_i32(v)
}

/// Linear map of `value` from `[from_min, from_max]` onto `[to_min, to_max]`:
/// the offset from `from_min` scaled by the span ratio, rounded toward zero,
/// clamped to `i32` and shifted by `to_min` (saturating). A source span that
/// is not positive leaves `value` unchanged.
pub open spec fn map_axis_spec(value: int, from_min: int, from_max: int, to_min: int, to_max: int) -> int {
    let from_span = sat_i32(from_max - from_min);
    if from_span <= 0 {
        value
    } else {
        let numerator = sat_i32(value - from_min) * sat_i32(to_max - to_min);
        sat_i32(clamp_i32(trunc_div(numerator, from_span)) + to_min)
    }
}

/// Maps one axis from the observed edges to the target edges.
pub fn map_axis(value: i32, from_min: i32, from_max: i32, to_min: i32, to_max: i32) -> (r: i32)
    ensures
        r == map_axis_spec(value as int, from_min as int, from_max as int, to_min as int, to_max as int),
{
    let from_span = sat_sub_i32(from_max, from_min);
    if from_span <= 0 {
        return value;
    }
    let a = sat_sub_i32(value, from_min);
    let b = sat_sub_i32(to_max, to_min);
    proof {
        assert(-0x8000_0000 * 0x8000_0000 <= a * b <= 0x8000_0000 * 0x8000_0000) by (nonlinear_arith)
            requires
                -0x8000_0000 <= a <= 0x7fff_ffff,
                -0x8000_0000 <= b <= 0x7fff_ffff,
        ;
    }
    let numerator: i64 = (a as i64) * (b as i64);
    let quotient = trunc_div_i64(numerator, from_span as i64);
    let clamped: i32 = if quotient > i32::MAX as i64 {
        i32::MAX
    } else if quotient < i32::MIN as i64 {
        i32::MIN
    } else {
        quotient as i32
    };
    sat_add_i32(clamped, to_min)
}

/// With no saturation, the map sends `from_min` to `to_min` and `from_max`
/// to `to_max`: observed edges land exactly on their targets.
pub proof fn lemma_map_axis_edges(from_min: int, from_max: int, to_min: int, to_max: int)
    requires
        0 <= from_min < from_max <= 0x7fff,
        0 <= to_min <= 0x7fff,
        0 <= to_max <= 0x7fff,
    ensures
        map_axis_spec(from_min, from_min, from_max, to_min, to_max) == to_min,
        map_axis_spec(from_max, from_min, from_max, to_min, to_max) == to_max,
{
    let span = from_max - from_min;
    let d = to_max - to_min;
    assert(0 * d == 0) by (nonlinear_arith);
    assert(0int / span == 0) by (nonlinear_arith)
        requires
            span > 0,
    ;
    assert(span * d / span == d) by (nonlinear_arith)
        requires
            span > 0,
    ;
    assert(-(span * (-d)) == span * d) by (nonlinear_arith);
    if d < 0 {
        assert((span * (-d)) / span == -d) by (nonlinear_arith)
            requires
                span > 0,
        ;
    }
}

/// The law of the axis map, for bounds whose spans fit in `i32`: a source
/// span that is not positive leaves values unchanged; otherwise the source
/// edges land on the target edges, and a target span that is not negative
/// keeps the order of values.
pub proof fn lemma_map_axis_law(v1: int, v2: int, from_min: int, from_max: int, to_min: int, to_max: int)
    requires
        i32::MIN <= v1 <= i32::MAX,
        i32::MIN <= v2 <= i32::MAX,
        i32::MIN <= from_min <= i32::MAX,
        i32::MIN <= from_max <= i32::MAX,
        i32::MIN <= to_min <= i32::MAX,
        i32::MIN <= to_max <= i32::MAX,
        i32::MIN <= from_max - from_min <= i32::MAX,
        i32::MIN <= to_max - to_min <= i32::MAX,
    ensures
        from_max <= from_min ==> map_axis_spec(v1, from_min, from_max, to_min, to_max) == v1,
        from_max > from_min ==> map_axis_spec(from_min, from_min, from_max, to_min, to_max) == to_min,
        from_max > from_min ==> map_axis_spec(from_max, from_min, from_max, to_min, to_max) == to_max,
        from_max > from_min && to_max >= to_min && v1 <= v2 ==> map_axis_spec(v1, from_min, from_max, to_min, to_max)
            <= map_axis_spec(v2, from_min, from_max, to_min, to_max),
{
    let span = from_max - from_min;
    let d = to_max - to_min;
    if span > 0 {
        assert(0 * d == 0) by (nonlinear_arith);
        assert(0int / span == 0) by (nonlinear_arith)
            requires
                span > 0,
        ;
        assert(span * d / span == d) by (nonlinear_arith)
            requires
                span > 0,
        ;
        if d < 0 {
            assert(-(span * d) == span * (-d)) by (nonlinear_arith);
            assert((span * (-d)) / span == -d) by (nonlinear_arith)
                requires
                    span > 0,
            ;
        }
        if d >= 0 && v1 <= v2 {
            let a1 = sat_i32(v1 - from_min);
            let a2 = sat_i32(v2 - from_min);
            assert(a1 <= a2);
            let n1 = a1 * d;
            let n2 = a2 * d;
            assert(n1 <= n2) by (nonlinear_arith)
                requires
                    a1 <= a2,
                    d >= 0,
                    n1 == a1 * d,
                    n2 == a2 * d,
            ;
            assert(trunc_div(n1, span) <= trunc_div(n2, span)) by {
                if n1 >= 0 {
                    assert(n1 / span <= n2 / span) by (nonlinear_arith)
                        requires
                            0 <= n1 <= n2,
                            span > 0,
                    ;
                } else if n2 >= 0 {
                    assert((-n1) / span >= 0) by (nonlinear_arith)
                        requires
                            -n1 > 0,
                            span > 0,
                    ;
                    assert(n2 / span >= 0) by (nonlinear_arith)
                        requires
                            n2 >= 0,
                            span > 0,
                    ;
                } else {
                    assert((-n2) / span <= (-n1) / span) by (nonlinear_arith)
                        requires
                            0 < -n2 <= -n1,
                            span > 0,
                    ;
                }
            }
        }
    }
}

/// The calibration derived from four corner observations (top-left,
/// top-right, bottom-right, bottom-left), or `None` when one is missing or
/// the observed spans are narrower than the capture radius.
pub open spec fn calibration_from(obs: Seq<Option<TapObservation>>) -> Option<TouchCalibration> {
    if obs[0] is None || obs[1] is None || obs[2] is None || obs[3] is None {
        None
    } else {
        let tl = obs[0]->0;
        let tr = obs[1]->0;
        let br = obs[2]->0;
        let bl = obs[3]->0;
        let left = average_spec(tl.observed.x as int, bl.observed.x as int);
        let right = average_spec(tr.observed.x as int, br.observed.x as int);
        let top = average_spec(tl.observed.y as int, tr.observed.y as int);
        let bottom = average_spec(bl.observed.y as int, br.observed.y as int);
        if sat_i32(right - left) < CALIBRATION_CAPTURE_RADIUS_PX || sat_i32(bottom - top)
            < CALIBRATION_CAPTURE_RADIUS_PX {
            None
        } else {
            Some(
                TouchCalibration {
                    observed_left: left as i32,
                    observed_right: right as i32,
                    observed_top: top as i32,
                    observed_bottom: bottom as i32,
                    target_left: average_spec(tl.target.x as int, bl.target.x as int) as i32,
                    target_right: average_spec(tr.target.x as int, br.target.x as int) as i32,
                    target_top: average_spec(tl.target.y as int, tr.target.y as int) as i32,
                    target_bottom: average_spec(bl.target.y as int, br.target.y as int) as i32,
                },
            )
        }
    }
}

/// `v` clamped into `[0, max(limit - 1, 0)]`.
pub open spec fn clamp_to_surface(v: int, limit: int) -> int {
    let hi = if sat_i32(limit - 1) >= 0 { sat_i32(limit - 1) } else { 0 };
    if v < 0 {
        0
    } else if v > hi {
        hi
    } else {
        v
    }
}

/// A point mapped by `c` and clamped onto a `width` x `height` surface.
pub open spec fn apply_spec(c: TouchCalibration, p: SwipePoint, width: int, height: int) -> SwipePoint {
    SwipePoint {
        x: clamp_to_surface(
            map_axis_spec(p.x as int, c.observed_left as int, c.observed_right as int, c.target_left as int, c.target_right as int),
            width,
        ) as i32,
        y: clamp_to_surface(
            map_axis_spec(p.y as int, c.observed_top as int, c.observed_bottom as int, c.target_top as int, c.target_bottom as int),
            height,
        ) as i32,
    }
}

fn clamp_to_surface_exec(v: i32, limit: i32) -> (r: i32)
    ensures
        r == clamp_to_surface(v as int, limit as int),
{
    let hi = max_i32(sat_sub_i32(limit, 1), 0);
    if v < 0 {
        0
    } else if v > hi {
        hi
    } else {
        v
    }
}

impl TouchCalibration {
    /// Derives the calibration from four corner observations.
    pub fn from_observations(observations: [Option<TapObservation>; 4]) -> (r: Option<Self>)
        ensures
            r == calibration_from(observations@),
    {
        let top_left = match observations[0] {
            Some(o) => o,
            None => return None,
        };
        let top_right = match observations[1] {
            Some(o) => o,
            None => return None,
        };
        let bottom_right = match observations[2] {
            Some(o) => o,
            None => return None,
        };
        let bottom_left = match observations[3] {
            Some(o) => o,
            None => return None,
        };
        let observed_left = average(top_left.observed.x, bottom_left.observed.x);
        let observed_right = average(top_right.observed.x, bottom_right.observed.x);
        let observed_top = average(top_left.observed.y, top_right.observed.y);
        let observed_bottom = average(bottom_left.observed.y, bottom_right.observed.y);
        if sat_sub_i32(observed_right, observed_left) < CALIBRATION_CAPTURE_RADIUS_PX
            || sat_sub_i32(observed_bottom, observed_top) < CALIBRATION_CAPTURE_RADIUS_PX {
            return None;
        }
        Some(
            TouchCalibration {
                observed_left,
                observed_right,
                observed_top,
                observed_bottom,
                target_left: average(top_left.target.x, bottom_left.target.x),
                target_right: average(top_right.target.x, bottom_right.target.x),
                target_top: average(top_left.target.y, top_right.target.y),
                target_bottom: average(bottom_left.target.y, bottom_right.target.y),
            },
        )
    }

    /// Maps a raw touch point and clamps it onto the surface.
    pub fn apply(self, point: SwipePoint, width: i32, height: i32) -> (r: SwipePoint)
        ensures
            r == apply_spec(self, point, width as int, height as int),
    {
        let x = map_axis(point.x, self.observed_left, self.observed_right, self.target_left, self.target_right);
        let y = map_axis(point.y, self.observed_top, self.observed_bottom, self.target_top, self.target_bottom);
        SwipePoint { x: clamp_to_surface_exec(x, width), y: clamp_to_surface_exec(y, height) }
    }
}

/// The four corner dots, `CALIBRATION_MARGIN_PX` inside the inclusive edges
/// of a `width` x `height` surface, in the order top-left, top-right,
/// bottom-right, bottom-left.
pub open spec fn calibration_targets_spec(width: int, height: int) -> Seq<SwipePoint> {
    let max_x = if sat_i32(width - 1) >= 0 { sat_i32(width - 1) } else { 0 };
    let max_y = if sat_i32(height - 1) >= 0 { sat_i32(height - 1) } else { 0 };
    let left = if CALIBRATION_MARGIN_PX <= max_x { CALIBRATION_MARGIN_PX as int } else { max_x };
    let right = if sat_i32(max_x - CALIBRATION_MARGIN_PX) >= left { sat_i32(max_x - CALIBRATION_MARGIN_PX) } else { left };
    let top = if CALIBRATION_MARGIN_PX <= max_y { CALIBRATION_MARGIN_PX as int } else { max_y };
    let bottom = if sat_i32(max_y - CALIBRATION_MARGIN_PX) >= top { sat_i32(max_y - CALIBRATION_MARGIN_PX) } else { top };
    seq![
        SwipePoint { x: left as i32, y: top as i32 },
        SwipePoint { x: right as i32, y: top as i32 },
        SwipePoint { x: right as i32, y: bottom as i32 },
        SwipePoint { x: left as i32, y: bottom as i32 },
    ]
}

/// The open corner nearest to `(x, y)` among the first `n` corners: the
/// lowest index of strictly minimal squared distance.
pub open spec fn nearest_open(
    obs: Seq<Option<TapObservation>>,
    targets: Seq<SwipePoint>,
    x: int,
    y: int,
    n: int,
) -> Option<int>
    decreases n,
{
    if n <= 0 {
        None
    } else {
        let prev = nearest_open(obs, targets, x, y, n - 1);
        if obs[n - 1] is Some {
            prev
        } else {
            let d = sq_dist(x, y, targets[n - 1].x as int, targets[n - 1].y as int);
            match prev {
                None => Some(n - 1),
                Some(p) => if d < sq_dist(x, y, targets[p].x as int, targets[p].y as int) {
                    Some(n - 1)
                } else {
                    prev
                },
            }
        }
    }
}

proof fn lemma_nearest_open_range(
    obs: Seq<Option<TapObservation>>,
    targets: Seq<SwipePoint>,
    x: int,
    y: int,
    n: int,
)
    ensures
        nearest_open(obs, targets, x, y, n) matches Some(i) ==> 0 <= i < n && obs[i] is None,
    decreases n,
{
    if n > 0 {
        lemma_nearest_open_range(obs, targets, x, y, n - 1);
    }
}

/// The event with its position, first contact and gesture start mapped by `c`.
pub open spec fn calibrated_event_spec(c: TouchCalibration, e: TouchEvent, width: int, height: int) -> TouchEvent {
    let point = apply_spec(c, SwipePoint { x: e.x as i32, y: e.y as i32 }, width, height);
    let start = apply_spec(c, SwipePoint { x: e.start_x as i32, y: e.start_y as i32 }, width, height);
    let contact = apply_spec(c, SwipePoint { x: e.contact_x as i32, y: e.contact_y as i32 }, width, height);
    TouchEvent {
        x: point.x as u16,
        y: point.y as u16,
        contact_x: contact.x as u16,
        contact_y: contact.y as u16,
        start_x: start.x as u16,
        start_y: start.y as u16,
        ..e
    }
}

/// Outcome of a calibration touch at `(x, y)`: whether the wizard changed,
/// and its new state. With no open corner nothing changes; a touch outside
/// the capture radius of the nearest open corner only updates the hint;
/// otherwise the corner is recorded, and the fourth corner derives the
/// calibration and waits for the release.
pub open spec fn record_calibration_spec(w: WizardView, x: i32, y: i32, width: int, height: int) -> (bool, WizardView) {
    let targets = calibration_targets_spec(width, height);
    match nearest_open(w.calibration_observations, targets, x as int, y as int, 4) {
        None => (false, w),
        Some(i) => {
            let target = targets[i];
            if sq_dist(x as int, y as int, target.x as int, target.y as int)
                > CALIBRATION_CAPTURE_RADIUS_PX * CALIBRATION_CAPTURE_RADIUS_PX {
                (true, WizardView { hint: WizardHint::TouchUnmarkedCornerDot, ..w })
            } else {
                let obs = w.calibration_observations.update(
                    i,
                    Some(TapObservation { target, observed: SwipePoint { x, y } }),
                );
                let cal = calibration_from(obs);
                if obs[0] is Some && obs[1] is Some && obs[2] is Some && obs[3] is Some {
                    (true, WizardView {
                        calibration_observations: obs,
                        calibration: cal,
                        calibration_pending_return: true,
                        hint: if cal is Some {
                            WizardHint::CalibrationComplete
                        } else {
                            WizardHint::CalibrationInvalid
                        },
                        ..w
                    })
                } else {
                    (true, WizardView { calibration_observations: obs, hint: WizardHint::CornerRecorded, ..w })
                }
            }
        },
    }
}

impl TouchCalibrationWizard {
    /// The four corner dots for a `width` x `height` surface.
    pub fn calibration_targets(width: i32, height: i32) -> (r: [SwipePoint; 4])
        ensures
            r@ == calibration_targets_spec(width as int, height as int),
    {
        let max_x = max_i32(sat_sub_i32(width, 1), 0);
        let max_y = max_i32(sat_sub_i32(height, 1), 0);
        let left = min_i32(CALIBRATION_MARGIN_PX, max_x);
        let right = max_i32(sat_sub_i32(max_x, CALIBRATION_MARGIN_PX), left);
        let top = min_i32(CALIBRATION_MARGIN_PX, max_y);
        let bottom = max_i32(sat_sub_i32(max_y, CALIBRATION_MARGIN_PX), top);
        let r = [
            SwipePoint { x: left, y: top },
            SwipePoint { x: right, y: top },
            SwipePoint { x: right, y: bottom },
            SwipePoint { x: left, y: bottom },
        ];
        assert(r@ =~= calibration_targets_spec(width as int, height as int));
        r
    }

    /// Starts a fresh calibration run, discarding the previous calibration.
    pub fn start_calibration(&mut self)
        ensures
            final(self)@ == (WizardView {
                phase: WizardPhase::Calibrate,
                hint: WizardHint::TouchEachCornerDot,
                calibration_observations: seq![None, None, None, None],
                calibration: None,
                calibration_pending_return: false,
                last_test_touch: None,
                ..old(self)@
            }),
    {
        self.phase = WizardPhase::Calibrate;
        self.hint = WizardHint::TouchEachCornerDot;
        self.calibration_observations = [None, None, None, None];
        self.calibration = None;
        self.calibration_pending_return = false;
        self.last_test_touch = None;
        assert(self@.calibration_observations =~= seq![None, None, None, None]);
        assert(self@ =~= (WizardView {
            phase: WizardPhase::Calibrate,
            hint: WizardHint::TouchEachCornerDot,
            calibration_observations: seq![None, None, None, None],
            calibration: None,
            calibration_pending_return: false,
            last_test_touch: None,
            ..old(self)@
        }));
    }

    /// Records a calibration touch at `(x, y)` on the nearest open corner dot
    /// within the capture radius; reports whether the wizard changed.
    pub fn record_calibration_touch(&mut self, x: i32, y: i32, width: i32, height: i32) -> (changed: bool)
        ensures
            (changed, final(self)@) == record_calibration_spec(old(self)@, x, y, width as int, height as int),
    {
        let targets = Self::calibration_targets(width, height);
        let ghost obs0 = self.calibration_observations@;
        let mut nearest: Option<(usize, i32)> = None;
        let mut index: usize = 0;
        while index < 4
            invariant
                index <= 4,
                self.calibration_observations@ == obs0,
                targets@ == calibration_targets_spec(width as int, height as int),
                match nearest {
                    None => nearest_open(obs0, targets@, x as int, y as int, index as int) is None,
                    Some((i, d)) => nearest_open(obs0, targets@, x as int, y as int, index as int) == Some(i as int)
                        && d == sq_dist(x as int, y as int, targets@[i as int].x as int, targets@[i as int].y as int),
                },
            decreases 4 - index,
        {
            if self.calibration_observations[index].is_none() {
                let target = targets[index];
                let distance = squared_distance_i32(x, y, target.x, target.y);
                let better = match nearest {
                    None => true,
                    Some((_, nearest_distance)) => distance < nearest_distance,
                };
                if better {
                    nearest = Some((index, distance));
                }
            }
            index = index + 1;
        }
        proof {
            lemma_nearest_open_range(obs0, targets@, x as int, y as int, 4);
        }
        let (index, distance) = match nearest {
            Some(pair) => pair,
            None => return false,
        };
        if distance > CALIBRATION_CAPTURE_RADIUS_PX * CALIBRATION_CAPTURE_RADIUS_PX {
            self.hint = WizardHint::TouchUnmarkedCornerDot;
            assert(self@ =~= (WizardView { hint: WizardHint::TouchUnmarkedCornerDot, ..old(self)@ }));
            return true;
        }
        let target = targets[index];
        self.calibration_observations[index] = Some(TapObservation { target, observed: SwipePoint { x, y } });
        let ghost obs1 = self.calibration_observations@;
        assert(obs1 =~= obs0.update(index as int, Some(TapObservation { target, observed: SwipePoint { x, y } })));
        let complete = self.calibration_observations[0].is_some()
            && self.calibration_observations[1].is_some()
            && self.calibration_observations[2].is_some()
            && self.calibration_observations[3].is_some();
        if complete {
            self.calibration = TouchCalibration::from_observations(self.calibration_observations);
            self.calibration_pending_return = true;
            self.hint = if self.calibration.is_some() {
                WizardHint::CalibrationComplete
            } else {
                WizardHint::CalibrationInvalid
            };
        } else {
            self.hint = WizardHint::CornerRecorded;
        }
        proof {
            let (c, v) = record_calibration_spec(old(self)@, x, y, width as int, height as int);
            assert(self@ =~= v);
        }
        true
    }

    /// Maps the event's position, first contact and gesture start through the
    /// calibration, if there is one.
    pub fn calibrated_event(&self, event: TouchEvent, width: i32, height: i32) -> (r: TouchEvent)
        ensures
            r == (match self.calibration {
                None => event,
                Some(c) => calibrated_event_spec(c, event, width as int, height as int),
            }),
    {
        let calibration = match self.calibration {
            Some(c) => c,
            None => return event,
        };
        let point = calibration.apply(SwipePoint { x: event.x as i32, y: event.y as i32 }, width, height);
        let start = calibration.apply(SwipePoint { x: event.start_x as i32, y: event.start_y as i32 }, width, height);
        let contact = calibration.apply(
            SwipePoint { x: event.contact_x as i32, y: event.contact_y as i32 },
            width,
            height,
        );
        let mut out = event;
        out.x = point.x as u16;
        out.y = point.y as u16;
        out.contact_x = contact.x as u16;
        out.contact_y = contact.y as u16;
        out.start_x = start.x as u16;
        out.start_y = start.y as u16;
        out
    }
}

/// The corner a calibration touch is judged against is an open corner at
/// least as near as every open corner, and strictly nearer than every open
/// corner before it (the first of equally near ones); there is none
/// exactly when no corner is open.
pub proof fn lemma_nearest_open_is_nearest(
    obs: Seq<Option<TapObservation>>,
    targets: Seq<SwipePoint>,
    x: int,
    y: int,
    n: int,
)
    requires
        0 <= n <= obs.len(),
        n <= targets.len(),
    ensures
        nearest_open(obs, targets, x, y, n) is None <==> (forall|j: int| 0 <= j < n ==> #[trigger] obs[j] is Some),
        nearest_open(obs, targets, x, y, n) matches Some(i) ==> {
            &&& 0 <= i < n
            &&& obs[i] is None
            &&& forall|j: int|
                0 <= j < n && #[trigger] obs[j] is None ==> sq_dist(x, y, targets[i].x as int, targets[i].y as int)
                    <= sq_dist(x, y, targets[j].x as int, targets[j].y as int)
            &&& forall|j: int|
                0 <= j < i && #[trigger] obs[j] is None ==> sq_dist(x, y, targets[i].x as int, targets[i].y as int)
                    < sq_dist(x, y, targets[j].x as int, targets[j].y as int)
        },
    decreases n,
{
    if n > 0 {
        lemma_nearest_open_is_nearest(obs, targets, x, y, n - 1);
    }
}

/// A calibration touch on a surface with an open corner within the capture
/// radius of the touch records the touch, as that corner's observation, on
/// an open corner nearest to the touch (the first of equally near ones),
/// and changes no other corner.
pub proof fn lemma_calibration_touch_records_nearest(w: WizardView, x: i32, y: i32, width: int, height: int, j: int)
    requires
        w.calibration_observations.len() == 4,
        0 <= j < 4,
        w.calibration_observations[j] is None,
        sq_dist(
            x as int,
            y as int,
            calibration_targets_spec(width, height)[j].x as int,
            calibration_targets_spec(width, height)[j].y as int,
        ) <= CALIBRATION_CAPTURE_RADIUS_PX * CALIBRATION_CAPTURE_RADIUS_PX,
    ensures
        record_calibration_spec(w, x, y, width, height).0,
        exists|i: int|
            {
                &&& 0 <= i < 4
                &&& w.calibration_observations[i] is None
                &&& #[trigger] record_calibration_spec(w, x, y, width, height).1.calibration_observations
                    == w.calibration_observations.update(
                    i,
                    Some(
                        TapObservation {
                            target: calibration_targets_spec(width, height)[i],
                            observed: SwipePoint { x, y },
                        },
                    ),
                )
                &&& forall|k: int|
                    0 <= k < 4 && #[trigger] w.calibration_observations[k] is None ==> sq_dist(
                        x as int,
                        y as int,
                        calibration_targets_spec(width, height)[i].x as int,
                        calibration_targets_spec(width, height)[i].y as int,
                    ) <= sq_dist(
                        x as int,
                        y as int,
                        calibration_targets_spec(width, height)[k].x as int,
                        calibration_targets_spec(width, height)[k].y as int,
                    )
                &&& forall|k: int|
                    0 <= k < i && #[trigger] w.calibration_observations[k] is None ==> sq_dist(
                        x as int,
                        y as int,
                        calibration_targets_spec(width, height)[i].x as int,
                        calibration_targets_spec(width, height)[i].y as int,
                    ) < sq_dist(
                        x as int,
                        y as int,
                        calibration_targets_spec(width, height)[k].x as int,
                        calibration_targets_spec(width, height)[k].y as int,
                    )
            },
{
    let targets = calibration_targets_spec(width, height);
    let obs = w.calibration_observations;
    lemma_nearest_open_is_nearest(obs, targets, x as int, y as int, 4);
    assert(obs[j] is None);
    let i = nearest_open(obs, targets, x as int, y as int, 4)->0;
    assert(sq_dist(x as int, y as int, targets[i].x as int, targets[i].y as int) <= sq_dist(
        x as int,
        y as int,
        targets[j].x as int,
        targets[j].y as int,
    ));
    let r = record_calibration_spec(w, x, y, width, height);
    assert(r.1.calibration_observations == obs.update(
        i,
        Some(TapObservation { target: targets[i], observed: SwipePoint { x, y } }),
    ));
}

/// A calibration touch farther than the capture radius from every open
/// corner (with one open) records nothing: only the hint changes, to ask
/// for an unmarked corner dot.
pub proof fn lemma_calibration_touch_off_every_dot(w: WizardView, x: i32, y: i32, width: int, height: int, j: int)
    requires
        w.calibration_observations.len() == 4,
        0 <= j < 4,
        w.calibration_observations[j] is None,
        forall|k: int|
            0 <= k < 4 && #[trigger] w.calibration_observations[k] is None ==> sq_dist(
                x as int,
                y as int,
                calibration_targets_spec(width, height)[k].x as int,
                calibration_targets_spec(width, height)[k].y as int,
            ) > CALIBRATION_CAPTURE_RADIUS_PX * CALIBRATION_CAPTURE_RADIUS_PX,
    ensures
        record_calibration_spec(w, x, y, width, height) == (true, WizardView {
            hint: WizardHint::TouchUnmarkedCornerDot,
            ..w
        }),
{
    lemma_nearest_open_is_nearest(w.calibration_observations, calibration_targets_spec(width, height), x as int, y as int, 4);
    assert(w.calibration_observations[j] is None);
}

/// On a surface wide and tall enough for both margins, the corner dots sit
/// `CALIBRATION_MARGIN_PX` inside the edge pixels: top-left, top-right,
/// bottom-right, bottom-left.
pub proof fn lemma_calibration_targets_at_margins(width: int, height: int)
    requires
        2 * CALIBRATION_MARGIN_PX + 1 <= width <= i32::MAX,
        2 * CALIBRATION_MARGIN_PX + 1 <= height <= i32::MAX,
    ensures
        calibration_targets_spec(width, height) == seq![
            SwipePoint { x: 52, y: 52 },
            SwipePoint { x: (width - 1 - 52) as i32, y: 52 },
            SwipePoint { x: (width - 1 - 52) as i32, y: (height - 1 - 52) as i32 },
            SwipePoint { x: 52, y: (height - 1 - 52) as i32 },
        ],
{
    assert(calibration_targets_spec(width, height) =~= seq![
        SwipePoint { x: 52, y: 52 },
        SwipePoint { x: (width - 1 - 52) as i32, y: 52 },
        SwipePoint { x: (width - 1 - 52) as i32, y: (height - 1 - 52) as i32 },
        SwipePoint { x: 52, y: (height - 1 - 52) as i32 },
    ]);
}

} // verus!
