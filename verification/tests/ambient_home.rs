use meditamer::ui::ambient::{AmbientSchedule, JourneyFraction};
use meditamer::ui::ambient_home::{
    apply, back_button_starts_visible, handle_tap, poll, AmbientHomeAction, AmbientMode, CircleChange,
    TIME_DISPLAY_DURATION_MS, UNAVAILABLE_RETRY_INTERVAL_MS,
};

fn schedule() -> AmbientSchedule {
    AmbientSchedule::default_schedule()
}

/// A place along the default 12-hour span.
fn along(seconds: u32) -> JourneyFraction {
    JourneyFraction { numerator: seconds, denominator: 12 * 3_600 }
}

const ARC_START: JourneyFraction = JourneyFraction { numerator: 0, denominator: 1 };
const ARC_END: JourneyFraction = JourneyFraction { numerator: 1, denominator: 1 };

#[test]
fn poll_waits_for_the_due_check_and_the_display_window() {
    let ambient = AmbientMode::Ambient { next_check_due_ms: 5_000, last_place: None };
    assert_eq!(poll(ambient, 4_999), AmbientHomeAction::Idle);
    assert_eq!(poll(ambient, 5_000), AmbientHomeAction::FetchForUpdate);
    let shown = AmbientMode::TimeDisplay { shown_at_ms: 1_000 };
    assert_eq!(poll(shown, 1_000 + TIME_DISPLAY_DURATION_MS - 1), AmbientHomeAction::Idle);
    assert_eq!(poll(shown, 1_000 + TIME_DISPLAY_DURATION_MS), AmbientHomeAction::FetchForReturn);
    assert_eq!(poll(shown, 0), AmbientHomeAction::Idle);
}

#[test]
fn taps_show_time_only_when_configured() {
    assert_eq!(handle_tap(true), AmbientHomeAction::FetchForShow);
    assert_eq!(handle_tap(false), AmbientHomeAction::Idle);
    assert!(!back_button_starts_visible(true));
    assert!(back_button_starts_visible(false));
}

#[test]
fn an_update_places_the_circle_and_waits_for_the_next_boundary() {
    let first = AmbientMode::Ambient { next_check_due_ms: 0, last_place: None };
    // 08:05:01 local: one full period into the journey, 299 s before the next step.
    let r = apply(schedule(), first, AmbientHomeAction::FetchForUpdate, Some(8 * 3_600 + 301), 1_000);
    assert_eq!(r.mode, AmbientMode::Ambient { next_check_due_ms: 1_000 + 299_000, last_place: Some(along(300)) });
    assert_eq!(r.circle, CircleChange::Place(along(300)));
    assert!(r.repaint);
    // The same position again changes nothing on screen.
    let again = apply(schedule(), r.mode, AmbientHomeAction::FetchForUpdate, Some(8 * 3_600 + 599), 2_000);
    assert_eq!(again.circle, CircleChange::Keep);
    assert!(!again.repaint);
    assert_eq!(again.mode, AmbientMode::Ambient { next_check_due_ms: 3_000, last_place: Some(along(300)) });
}

#[test]
fn lost_time_hides_the_circle_and_retries() {
    let placed = AmbientMode::Ambient { next_check_due_ms: 0, last_place: Some(along(300)) };
    let r = apply(schedule(), placed, AmbientHomeAction::FetchForUpdate, None, 7_000);
    assert_eq!(r.circle, CircleChange::Hide);
    assert!(r.repaint);
    assert_eq!(r.mode, AmbientMode::Ambient { next_check_due_ms: 7_000 + UNAVAILABLE_RETRY_INTERVAL_MS, last_place: None });
    let still = apply(schedule(), r.mode, AmbientHomeAction::FetchForUpdate, None, 12_000);
    assert!(!still.repaint);
    assert_eq!(still.circle, CircleChange::Keep);
}

#[test]
fn tapping_shows_time_and_returning_restores_the_arc() {
    let ambient = AmbientMode::Ambient { next_check_due_ms: 99_000, last_place: Some(along(0)) };
    let kept = apply(schedule(), ambient, AmbientHomeAction::FetchForShow, None, 5_000);
    assert_eq!(kept.mode, ambient);
    assert!(!kept.repaint);
    // One day and 13:30 local.
    let shown = apply(schedule(), ambient, AmbientHomeAction::FetchForShow, Some(86_400 + 13 * 3_600 + 1_800), 5_000);
    assert_eq!(shown.show_time, Some(13 * 3_600 + 1_800));
    assert_eq!(shown.mode, AmbientMode::TimeDisplay { shown_at_ms: 5_000 });
    assert!(shown.repaint);
    // A late update after the tap changes nothing.
    let late = apply(schedule(), shown.mode, AmbientHomeAction::FetchForUpdate, Some(0), 6_000);
    assert_eq!(late.mode, shown.mode);
    assert!(!late.repaint);
    // 21:00: past the end, the circle rests at the end until midnight (3 h).
    let back = apply(schedule(), shown.mode, AmbientHomeAction::FetchForReturn, Some(21 * 3_600), 15_000);
    assert!(back.return_to_ambient && back.repaint);
    assert_eq!(back.circle, CircleChange::Place(ARC_END));
    assert_eq!(back.mode, AmbientMode::Ambient { next_check_due_ms: 15_000 + 3 * 3_600 * 1_000, last_place: Some(ARC_END) });
    let dark = apply(schedule(), shown.mode, AmbientHomeAction::FetchForReturn, None, 15_000);
    assert_eq!(dark.circle, CircleChange::Hide);
    assert!(dark.return_to_ambient);
}

#[test]
fn before_the_start_the_circle_waits_at_the_arc_start() {
    let r = apply(schedule(), AmbientMode::Ambient { next_check_due_ms: 0, last_place: None }, AmbientHomeAction::FetchForUpdate, Some(7 * 3_600), 0);
    assert_eq!(r.circle, CircleChange::Place(ARC_START));
    assert_eq!(r.mode, AmbientMode::Ambient { next_check_due_ms: 3_600_000, last_place: Some(ARC_START) });
}

#[test]
fn reaching_the_start_does_not_move_a_circle_resting_there() {
    // Before the start the circle rests at the arc start; at the start time
    // the journey has gone nowhere yet, so nothing is redrawn.
    let resting = AmbientMode::Ambient { next_check_due_ms: 0, last_place: Some(ARC_START) };
    let r = apply(schedule(), resting, AmbientHomeAction::FetchForUpdate, Some(8 * 3_600), 0);
    assert_eq!(r.circle, CircleChange::Keep);
    assert!(!r.repaint);
    assert_eq!(r.mode, AmbientMode::Ambient { next_check_due_ms: 300_000, last_place: Some(along(0)) });
}
