//! Dispatch of one touch event through the wizard.
use vstd::prelude::*;

use super::calibration::{apply_spec, calibrated_event_spec, record_calibration_spec};
use super::event::{TouchEvent, TouchEventKind};
use super::flow::{
    continue_spec, manual_mark_spec, menu_view, open_test_view, toggle_view, PrecisionMenuAction,
};
use super::layout::{
    continue_bounds_spec, in_bounds, precision_menu_bounds_spec, swipe_mark_bounds_spec,
    test_toggle_bounds_spec,
};
use super::swipe::{swipe_debug_view, trace_down_view, trace_move_view};
use super::swipe_event::{resolve_release_spec, swipe_event_spec, swipe_release_spec};
use super::wizard::{
    SwipePoint, TestTouch, TouchCalibrationWizard, WizardHint, WizardPhase, WizardView,
};

verus! {

/// How the wizard took an event.
#[derive(Clone, Copy, Debug, PartialEq, Eq, Structural)]
pub enum WizardDispatch {
    /// The wizard is closed; the event is not for it.
    Inactive,
    /// The wizard handled the event.
    Consumed,
    /// The event closed the wizard.
    Finished,
}

/// The outcome of one event: the dispatch and whether the screen must be
/// redrawn now.
#[derive(Clone, Copy, Debug, PartialEq, Eq, Structural)]
pub struct WizardStep {
    pub dispatch: WizardDispatch,
    pub render: bool,
}

/// Surface sizes on which every button rectangle can be computed.
pub open spec fn event_surface_ok(width: int, height: int) -> bool {
    width >= i32::MIN + 160 && height >= i32::MIN + 166
}

/// The phase-specific handling of an event, after a pending release has
/// been settled (`c0` reports whether that changed anything).
pub open spec fn phase_step_spec(
    w0: WizardView,
    c0: bool,
    raw: TouchEvent,
    event: TouchEvent,
    width: int,
    height: int,
    tap: bool,
    continue_hit: bool,
    mark_hit: bool,
) -> (bool, WizardView) {
    let ex = event.x as int;
    let ey = event.y as int;
    match w0.phase {
        WizardPhase::PrecisionMenu => {
            if tap {
                let (c, t, k) = precision_menu_bounds_spec(width, height);
                if in_bounds(ex, ey, c) {
                    (true, WizardView {
                        phase: WizardPhase::Calibrate,
                        hint: WizardHint::TouchEachCornerDot,
                        calibration_observations: seq![None, None, None, None],
                        calibration: None,
                        calibration_pending_return: false,
                        last_test_touch: None,
                        ..w0
                    })
                } else if in_bounds(ex, ey, t) {
                    (true, open_test_view(w0))
                } else if in_bounds(ex, ey, k) {
                    continue_spec(w0, event.t_ms)
                } else {
                    (c0, w0)
                }
            } else {
                (c0, w0)
            }
        },
        WizardPhase::Calibrate => match raw.kind {
            TouchEventKind::Down => if !w0.calibration_pending_return {
                record_calibration_spec(w0, raw.contact_x as i32, raw.contact_y as i32, width, height)
            } else {
                (c0, w0)
            },
            TouchEventKind::Up => if w0.calibration_pending_return {
                (true, menu_view(w0))
            } else {
                (c0, w0)
            },
            TouchEventKind::Cancel => if w0.calibration_pending_return {
                (true, menu_view(w0))
            } else {
                (true, WizardView { hint: WizardHint::CalibrationTouchCanceled, ..w0 })
            },
            _ => (c0, w0),
        },
        WizardPhase::PrecisionTest => {
            let return_hit = in_bounds(ex, ey, continue_bounds_spec(width, height));
            let toggle_hit = in_bounds(ex, ey, test_toggle_bounds_spec(width, height));
            if tap && return_hit {
                (true, menu_view(w0))
            } else if tap && toggle_hit {
                (true, toggle_view(w0))
            } else if event.kind is Down && !toggle_hit && !return_hit {
                (true, WizardView {
                    last_test_touch: Some(TestTouch {
                        raw: SwipePoint { x: raw.contact_x as i32, y: raw.contact_y as i32 },
                        calibrated: SwipePoint { x: event.contact_x as i32, y: event.contact_y as i32 },
                    }),
                    ..w0
                })
            } else {
                (c0, w0)
            }
        },
        WizardPhase::SwipeRight => {
            if mark_hit {
                manual_mark_spec(w0, event.t_ms)
            } else if continue_hit {
                continue_spec(w0, event.t_ms)
            } else {
                let w1 = swipe_debug_view(w0, event);
                match event.kind {
                    TouchEventKind::Down => {
                        let ui = in_bounds(ex, ey, continue_bounds_spec(width, height))
                            || in_bounds(ex, ey, swipe_mark_bounds_spec(width, height));
                        if ui {
                            (c0, w1)
                        } else {
                            (false, trace_down_view(w1, event.start_x as int, event.start_y as int, ex, ey))
                        }
                    },
                    TouchEventKind::Up => {
                        let (c, w2) = swipe_release_spec(w1, event);
                        (c || c0, w2)
                    },
                    TouchEventKind::Move => (false, trace_move_view(w1, event.x as i32, event.y as i32)),
                    TouchEventKind::Swipe(d) => swipe_event_spec(w1, event, d),
                    TouchEventKind::Cancel => (true, WizardView { hint: WizardHint::SwipeTouchCanceled, ..w1 }),
                    _ => (c0, w1),
                }
            }
        },
        WizardPhase::Complete => if continue_hit {
            continue_spec(w0, event.t_ms)
        } else {
            (c0, w0)
        },
        WizardPhase::Closed => (c0, w0),
    }
}

/// One event through the wizard. A closed wizard ignores it. Otherwise the
/// event is calibrated (except while calibrating), a pending release is
/// settled, the phase handles it, and the screen is redrawn when something
/// changed, except while waiting for a release's swipe classification or for
/// the release that ends a calibration.
pub open spec fn handle_event_spec(w: WizardView, raw: TouchEvent, width: int, height: int) -> (WizardStep, WizardView) {
    if w.phase == WizardPhase::Closed {
        (WizardStep { dispatch: WizardDispatch::Inactive, render: false }, w)
    } else {
        let event = if w.phase == WizardPhase::Calibrate {
            raw
        } else {
            match w.calibration {
                None => raw,
                Some(c) => calibrated_event_spec(c, raw, width, height),
            }
        };
        let ex = event.x as int;
        let ey = event.y as int;
        let tap = event.kind is Tap || event.kind is LongPress;
        let continue_hit = tap && (w.phase == WizardPhase::SwipeRight || w.phase == WizardPhase::Complete)
            && in_bounds(ex, ey, continue_bounds_spec(width, height));
        let mark_hit = tap && w.phase == WizardPhase::SwipeRight && in_bounds(ex, ey, swipe_mark_bounds_spec(width, height));
        let (c0, w0) = if w.phase == WizardPhase::SwipeRight {
            resolve_release_spec(w, event, continue_hit, mark_hit)
        } else {
            (false, w)
        };
        let (changed, w1) = phase_step_spec(w0, c0, raw, event, width, height, tap, continue_hit, mark_hit);
        if w1.phase == WizardPhase::Closed {
            (WizardStep { dispatch: WizardDispatch::Finished, render: false }, w1)
        } else {
            let waiting_for_swipe = w.phase == WizardPhase::SwipeRight && event.kind is Up;
            let waiting_for_release = w.phase == WizardPhase::Calibrate && raw.kind is Down && w1.calibration_pending_return;
            (WizardStep {
                dispatch: WizardDispatch::Consumed,
                render: changed && !waiting_for_swipe && !waiting_for_release,
            }, w1)
        }
    }
}

impl TouchCalibrationWizard {
    /// Handles one touch event on a `width` x `height` surface and says
    /// whether the wizard took it and whether the screen must be redrawn.
    pub fn handle_event(&mut self, raw_event: TouchEvent, width: i32, height: i32) -> (step: WizardStep)
        requires
            event_surface_ok(width as int, height as int),
        ensures
            (step, final(self)@) == handle_event_spec(old(self)@, raw_event, width as int, height as int),
    {
        if !self.is_active() {
            return WizardStep { dispatch: WizardDispatch::Inactive, render: false };
        }
        let event = if matches!(self.phase, WizardPhase::Calibrate) {
            raw_event
        } else {
            self.calibrated_event(raw_event, width, height)
        };
        let phase_before = self.phase;
        let mut changed = false;
        let ex = event.x as i32;
        let ey = event.y as i32;
        let is_action_tap = matches!(event.kind, TouchEventKind::Tap | TouchEventKind::LongPress);
        let continue_hit = is_action_tap && self.shows_continue_button() && self.continue_button_hit(ex, ey, width, height);
        let swipe_mark_hit = is_action_tap && self.shows_swipe_mark_button() && self.swipe_mark_button_hit(
            ex,
            ey,
            width,
            height,
        );
        if matches!(self.phase, WizardPhase::SwipeRight) && self.resolve_pending_swipe_release(
            event,
            continue_hit,
            swipe_mark_hit,
        ) {
            changed = true;
        }
        changed = self.phase_step(changed, raw_event, event, width, height, is_action_tap, continue_hit, swipe_mark_hit);
        if matches!(self.phase, WizardPhase::Closed) {
            return WizardStep { dispatch: WizardDispatch::Finished, render: false };
        }
        let waiting_for_swipe_classification = matches!(phase_before, WizardPhase::SwipeRight)
            && matches!(event.kind, TouchEventKind::Up);
        let waiting_for_calibration_release = matches!(phase_before, WizardPhase::Calibrate)
            && matches!(raw_event.kind, TouchEventKind::Down) && self.calibration_pending_return;
        WizardStep {
            dispatch: WizardDispatch::Consumed,
            render: changed && !waiting_for_swipe_classification && !waiting_for_calibration_release,
        }
    }

    fn phase_step(
        &mut self,
        c0: bool,
        raw: TouchEvent,
        event: TouchEvent,
        width: i32,
        height: i32,
        tap: bool,
        continue_hit: bool,
        mark_hit: bool,
    ) -> (changed: bool)
        requires
            event_surface_ok(width as int, height as int),
        ensures
            (changed, final(self)@) == phase_step_spec(old(self)@, c0, raw, event, width as int, height as int, tap, continue_hit, mark_hit),
    {
        match self.phase {
            WizardPhase::PrecisionMenu => self.menu_step(c0, event, width, height, tap),
            WizardPhase::Calibrate => self.calibrate_step(c0, raw, width, height),
            WizardPhase::PrecisionTest => self.test_step(c0, raw, event, width, height, tap),
            WizardPhase::SwipeRight => self.swipe_step(c0, event, width, height, continue_hit, mark_hit),
            WizardPhase::Complete => {
                if continue_hit {
                    self.on_continue_button(event.t_ms)
                } else {
                    c0
                }
            },
            WizardPhase::Closed => c0,
        }
    }

    fn menu_step(&mut self, c0: bool, event: TouchEvent, width: i32, height: i32, tap: bool) -> (changed: bool)
        requires
            old(self).phase == WizardPhase::PrecisionMenu,
            event_surface_ok(width as int, height as int),
        ensures
            (changed, final(self)@) == phase_step_spec(old(self)@, c0, event, event, width as int, height as int, tap, false, false),
    {
        if tap {
            match self.precision_menu_action(event.x as i32, event.y as i32, width, height) {
                Some(PrecisionMenuAction::Calibrate) => {
                    self.start_calibration();
                    true
                },
                Some(PrecisionMenuAction::Test) => {
                    self.open_precision_test();
                    true
                },
                Some(PrecisionMenuAction::Continue) => self.on_continue_button(event.t_ms),
                None => c0,
            }
        } else {
            c0
        }
    }

    fn calibrate_step(&mut self, c0: bool, raw: TouchEvent, width: i32, height: i32) -> (changed: bool)
        requires
            old(self).phase == WizardPhase::Calibrate,
        ensures
            (changed, final(self)@) == phase_step_spec(old(self)@, c0, raw, raw, width as int, height as int, false, false, false),
    {
        match raw.kind {
            TouchEventKind::Down => {
                if !self.calibration_pending_return {
                    self.record_calibration_touch(raw.contact_x as i32, raw.contact_y as i32, width, height)
                } else {
                    c0
                }
            },
            TouchEventKind::Up => {
                if self.calibration_pending_return {
                    self.return_to_precision_menu();
                    true
                } else {
                    c0
                }
            },
            TouchEventKind::Cancel => {
                if self.calibration_pending_return {
                    self.return_to_precision_menu();
                } else {
                    self.hint = WizardHint::CalibrationTouchCanceled;
                    assert(self@ =~= (WizardView { hint: WizardHint::CalibrationTouchCanceled, ..old(self)@ }));
                }
                true
            },
            _ => c0,
        }
    }

    fn test_step(&mut self, c0: bool, raw: TouchEvent, event: TouchEvent, width: i32, height: i32, tap: bool) -> (changed: bool)
        requires
            old(self).phase == WizardPhase::PrecisionTest,
            event_surface_ok(width as int, height as int),
        ensures
            (changed, final(self)@) == phase_step_spec(old(self)@, c0, raw, event, width as int, height as int, tap, false, false),
    {
        let ex = event.x as i32;
        let ey = event.y as i32;
        if tap && self.test_return_hit(ex, ey, width, height) {
            self.return_to_precision_menu();
            true
        } else if tap && self.test_toggle_hit(ex, ey, width, height) {
            self.toggle_test_mode();
            true
        } else if matches!(event.kind, TouchEventKind::Down) && !self.test_toggle_hit(ex, ey, width, height)
            && !self.test_return_hit(ex, ey, width, height) {
            self.last_test_touch = Some(
                TestTouch {
                    raw: SwipePoint { x: raw.contact_x as i32, y: raw.contact_y as i32 },
                    calibrated: SwipePoint { x: event.contact_x as i32, y: event.contact_y as i32 },
                },
            );
            proof {
                let (c, v) = phase_step_spec(old(self)@, c0, raw, event, width as int, height as int, tap, false, false);
                assert(self@ =~= v);
            }
            true
        } else {
            c0
        }
    }

    fn swipe_step(&mut self, c0: bool, event: TouchEvent, width: i32, height: i32, continue_hit: bool, mark_hit: bool) -> (changed: bool)
        requires
            old(self).phase == WizardPhase::SwipeRight,
            event_surface_ok(width as int, height as int),
        ensures
            forall|raw: TouchEvent, tap: bool|
                (changed, final(self)@) == #[trigger] phase_step_spec(old(self)@, c0, raw, event, width as int, height as int, tap, continue_hit, mark_hit),
    {
        let ex = event.x as i32;
        let ey = event.y as i32;
        if mark_hit {
            return self.on_manual_swipe_mark(event.t_ms);
        }
        if continue_hit {
            return self.on_continue_button(event.t_ms);
        }
        self.update_swipe_debug(event);
        match event.kind {
            TouchEventKind::Down => {
                let is_ui_touch = self.continue_button_hit(ex, ey, width, height) || self.swipe_mark_button_hit(
                    ex,
                    ey,
                    width,
                    height,
                );
                if !is_ui_touch {
                    self.on_swipe_trace_down(event.start_x as i32, event.start_y as i32, ex, ey)
                } else {
                    c0
                }
            },
            TouchEventKind::Tap | TouchEventKind::LongPress => c0,
            TouchEventKind::Up => self.on_swipe_release(event) || c0,
            TouchEventKind::Move => self.on_swipe_trace_move(ex, ey),
            TouchEventKind::Swipe(direction) => self.on_swipe_event(event, direction),
            TouchEventKind::Cancel => {
                self.hint = WizardHint::SwipeTouchCanceled;
                proof {
                    let w1 = swipe_debug_view(old(self)@, event);
                    assert(self@ =~= (WizardView { hint: WizardHint::SwipeTouchCanceled, ..w1 }));
                }
                true
            },
        }
    }
}

/// Where the wizard sees a touch at raw point `p`: through the calibration
/// when there is one, else as it came.
pub open spec fn seen_point(w: WizardView, p: SwipePoint, width: int, height: int) -> SwipePoint {
    match w.calibration {
        Some(c) => apply_spec(c, p, width, height),
        None => p,
    }
}

/// During the precision test a touch-down away from the test's buttons is
/// recorded with its raw first contact and, as its calibrated point, the
/// calibration applied to that raw contact (the contact itself when there
/// is no calibration); nothing else about the wizard changes.
pub proof fn lemma_test_touch_records_calibrated_contact(w: WizardView, raw: TouchEvent, width: int, height: int)
    requires
        w.phase == WizardPhase::PrecisionTest,
        raw.kind is Down,
        1 <= width <= 65536,
        1 <= height <= 65536,
        !in_bounds(
            seen_point(w, SwipePoint { x: raw.x as i32, y: raw.y as i32 }, width, height).x as int,
            seen_point(w, SwipePoint { x: raw.x as i32, y: raw.y as i32 }, width, height).y as int,
            continue_bounds_spec(width, height),
        ),
        !in_bounds(
            seen_point(w, SwipePoint { x: raw.x as i32, y: raw.y as i32 }, width, height).x as int,
            seen_point(w, SwipePoint { x: raw.x as i32, y: raw.y as i32 }, width, height).y as int,
            test_toggle_bounds_spec(width, height),
        ),
    ensures
        handle_event_spec(w, raw, width, height).1 == (WizardView {
            last_test_touch: Some(
                TestTouch {
                    raw: SwipePoint { x: raw.contact_x as i32, y: raw.contact_y as i32 },
                    calibrated: seen_point(
                        w,
                        SwipePoint { x: raw.contact_x as i32, y: raw.contact_y as i32 },
                        width,
                        height,
                    ),
                },
            ),
            ..w
        }),
{
}

} // verus!
