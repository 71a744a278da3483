//! Touch events as the touch pipeline hands them to the wizard.
use vstd::prelude::*;

verus! {

/// Direction of a classified swipe.
#[derive(Clone, Copy, Debug, PartialEq, Eq, Structural)]
pub enum TouchSwipeDirection {
    Left,
    Right,
    Up,
    Down,
}

/// What a touch event reports.
#[derive(Clone, Copy, Debug, PartialEq, Eq, Structural)]
pub enum TouchEventKind {
    Down,
    Move,
    Up,
    Tap,
    LongPress,
    Swipe(TouchSwipeDirection),
    Cancel,
}

/// One touch event: the debounced position `x`/`y`, the first-contact
/// position `contact_x`/`contact_y`, the gesture start `start_x`/`start_y`
/// and the gesture's diagnostics.
#[derive(Clone, Copy, Debug, PartialEq, Eq, Structural)]
pub struct TouchEvent {
    pub kind: TouchEventKind,
    pub t_ms: u64,
    pub x: u16,
    pub y: u16,
    pub contact_x: u16,
    pub contact_y: u16,
    pub start_x: u16,
    pub start_y: u16,
    pub duration_ms: u16,
    pub touch_count: u8,
    pub move_count: u16,
    pub max_travel_px: u16,
    pub release_debounce_ms: u16,
    pub dropout_count: u16,
}

/// Start and end markers of a guided swipe session.
#[derive(Clone, Copy, Debug, PartialEq, Eq, Structural)]
pub enum TouchWizardSessionEvent {
    Start { t_ms: u64 },
    End { t_ms: u64 },
}

/// One diagnostic record of a guided swipe case.
#[derive(Clone, Copy, Debug, PartialEq, Eq, Structural)]
pub struct TouchWizardSwipeTraceSample {
    pub t_ms: u64,
    pub case_index: u8,
    pub attempt: u16,
    pub expected_direction: u8,
    pub expected_speed: u8,
    pub verdict: u8,
    pub classified_direction: u8,
    pub start_x: u16,
    pub start_y: u16,
    pub end_x: u16,
    pub end_y: u16,
    pub duration_ms: u16,
    pub move_count: u16,
    pub max_travel_px: u16,
    pub release_debounce_ms: u16,
    pub dropout_count: u16,
}

} // verus!
