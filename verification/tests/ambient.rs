use meditamer::ui::ambient::{local_seconds_of_day, same_place_exec, AmbientSchedule, SECONDS_PER_DAY};

/// The position along the arc, as drawn.
fn journey_fraction(schedule: &AmbientSchedule, seconds: u32) -> f32 {
    let place = schedule.journey_fraction(seconds);
    place.numerator as f32 / place.denominator as f32
}

#[test]
fn default_config_is_valid() {
    assert!(AmbientSchedule::default_schedule().is_valid());
}

#[test]
fn update_period_exceeding_span_is_invalid() {
    let mut broken = AmbientSchedule::default_schedule();
    broken.update_period_seconds = broken.end_seconds - broken.start_seconds + 1;
    assert!(!broken.is_valid());
}

#[test]
fn invalid_config_falls_back_to_the_complete_default_set() {
    let mut broken = AmbientSchedule::default_schedule();
    broken.start_seconds = broken.end_seconds;
    assert!(!broken.is_valid());
    let zero_period = AmbientSchedule { update_period_seconds: 0, ..AmbientSchedule::default_schedule() };
    assert!(!zero_period.is_valid());
}

#[test]
fn before_start_rests_at_arc_start() {
    let config = AmbientSchedule::default_schedule();
    assert_eq!(journey_fraction(&config, 0), 0.0);
    assert_eq!(journey_fraction(&config, config.start_seconds - 1), 0.0);
}

#[test]
fn at_and_after_end_rests_at_arc_end() {
    let config = AmbientSchedule::default_schedule();
    assert_eq!(journey_fraction(&config, config.end_seconds), 1.0);
    assert_eq!(journey_fraction(&config, config.end_seconds + 3_600), 1.0);
}

#[test]
fn update_boundaries_are_anchored_at_the_start_time() {
    let config = AmbientSchedule::default_schedule();
    let span = (config.end_seconds - config.start_seconds) as f32;

    let at_14_00 = 14 * 3_600;
    let at_14_04_59 = at_14_00 + 4 * 60 + 59;
    let at_14_05_00 = at_14_00 + 5 * 60;

    let fraction_14_00 = (at_14_00 - config.start_seconds as i32) as f32 / span;
    assert_eq!(journey_fraction(&config, at_14_04_59 as u32), fraction_14_00);
    assert_ne!(journey_fraction(&config, at_14_05_00 as u32), fraction_14_00);

    let fraction_14_05 = (at_14_05_00 - config.start_seconds as i32) as f32 / span;
    assert_eq!(journey_fraction(&config, at_14_05_00 as u32), fraction_14_05);
}

#[test]
fn crossing_local_midnight_resets_to_the_pre_start_position() {
    let config = AmbientSchedule::default_schedule();
    assert_eq!(journey_fraction(&config, 23 * 3_600 + 59 * 60), 1.0);
    assert_eq!(local_seconds_of_day(SECONDS_PER_DAY + 60), 60);
    assert_eq!(journey_fraction(&config, local_seconds_of_day(SECONDS_PER_DAY + 60)), 0.0);
}

#[test]
fn end_time_is_an_additional_boundary_when_the_cadence_does_not_land_on_it() {
    let mut config = AmbientSchedule::default_schedule();
    config.update_period_seconds = 7 * 60;
    assert!(config.is_valid());
    assert_eq!(journey_fraction(&config, config.end_seconds - 1), {
        let span = (config.end_seconds - config.start_seconds) as f32;
        let elapsed = config.end_seconds - 1 - config.start_seconds;
        let steps = elapsed / config.update_period_seconds;
        let boundary = config.start_seconds + steps * config.update_period_seconds;
        (boundary - config.start_seconds) as f32 / span
    });
    assert_eq!(journey_fraction(&config, config.end_seconds), 1.0);
}

#[test]
fn next_boundary_never_returns_zero() {
    let config = AmbientSchedule::default_schedule();
    assert!(config.seconds_until_next_boundary(config.end_seconds) >= 1);
    assert!(config.seconds_until_next_boundary(config.start_seconds) >= 1);
}

#[test]
fn next_boundary_waits_for_the_start_the_grid_and_midnight() {
    let config = AmbientSchedule::default_schedule();
    assert_eq!(config.seconds_until_next_boundary(0), 28_800);
    assert_eq!(config.seconds_until_next_boundary(28_800), 300);
    assert_eq!(config.seconds_until_next_boundary(28_801), 299);
    assert_eq!(config.seconds_until_next_boundary(72_000), 14_400);
    let mut uneven = config;
    uneven.update_period_seconds = 7 * 60;
    // The last grid step would pass the end; the end is the boundary instead.
    assert_eq!(uneven.seconds_until_next_boundary(71_999), 1);
}

#[test]
fn the_position_holds_until_the_reported_boundary() {
    let config = AmbientSchedule::default_schedule();
    for t in [0u32, 28_799, 28_800, 30_000, 71_999, 72_000, 80_000] {
        let wait = config.seconds_until_next_boundary(t);
        let here = config.journey_fraction(t);
        for d in 0..wait.min(400) {
            assert_eq!(config.journey_fraction(t + d), here);
        }
    }
}

#[test]
fn a_schedule_ending_before_it_starts_rests_at_the_start_then_the_end() {
    // Not a valid configuration, but the position is still defined: before
    // the start it rests at the arc start, from the start on at its end.
    let reversed = AmbientSchedule { start_seconds: 72_000, end_seconds: 28_800, update_period_seconds: 0 };
    assert_eq!(journey_fraction(&reversed, 30_000), 0.0);
    assert_eq!(journey_fraction(&reversed, 80_000), 1.0);
    assert_eq!(reversed.seconds_until_next_boundary(30_000), 42_000);
    assert_eq!(reversed.seconds_until_next_boundary(80_000), 6_400);
}

#[test]
fn equal_places_compare_equal_across_denominators() {
    let schedule = AmbientSchedule::default_schedule();
    let before = schedule.journey_fraction(0);
    let at_start = schedule.journey_fraction(schedule.start_seconds);
    assert_ne!(before, at_start);
    assert!(same_place_exec(before, at_start));
    assert!(!same_place_exec(at_start, schedule.journey_fraction(schedule.start_seconds + 300)));
}
