use meditamer::hal::{frontlight_payload, GpioFast, CL_MASK, DATA_MASK, LE_MASK, PANEL_OUT_ENABLE_MASK};
use meditamer::shell::types::OverlayInput;
use meditamer::ui::gesture::{
    direction_label, map_direction, BaseOverlayKind, GestureQueue, LvglGestureDirection, GESTURE_QUEUE_CAPACITY,
};

#[test]
fn directions_map_and_label() {
    assert_eq!(map_direction(1), LvglGestureDirection::Left);
    assert_eq!(map_direction(2), LvglGestureDirection::Right);
    assert_eq!(map_direction(4), LvglGestureDirection::Up);
    assert_eq!(map_direction(8), LvglGestureDirection::Down);
    assert_eq!(map_direction(3), LvglGestureDirection::Unknown);
    assert_eq!(direction_label(LvglGestureDirection::Up), "up");
    assert_eq!(direction_label(LvglGestureDirection::Unknown), "unknown");
}

#[test]
fn full_gesture_queue_drops_the_oldest() {
    let mut queue = GestureQueue::new();
    for g in 0..(GESTURE_QUEUE_CAPACITY as u32 + 3) {
        queue.push_latest(g);
    }
    assert_eq!(queue.len(), GESTURE_QUEUE_CAPACITY);
    for expected in 3..(GESTURE_QUEUE_CAPACITY as u32 + 3) {
        assert_eq!(queue.take_gesture(), Some(expected));
    }
    assert_eq!(queue.take_gesture(), None);
}

#[test]
fn base_overlays_declare_their_input() {
    assert_eq!(BaseOverlayKind::NavigationCue.input(), OverlayInput::Passive);
    assert_eq!(BaseOverlayKind::RefreshControl.input(), OverlayInput::Interactive);
}

#[test]
fn gpio_writes_change_only_their_mask() {
    let mut gpio = GpioFast::new();
    gpio.out_enable_set(PANEL_OUT_ENABLE_MASK);
    assert_eq!(gpio.enable, DATA_MASK | CL_MASK | LE_MASK);
    gpio.out_set(DATA_MASK | CL_MASK);
    gpio.out_clear(CL_MASK);
    assert_eq!(gpio.out, DATA_MASK);
    gpio.out1_set(3);
    gpio.out1_clear(1);
    assert_eq!(gpio.out1, 2);
    gpio.out_enable1_set(2);
    assert_eq!(gpio.enable1, 2);
}

#[test]
fn frontlight_level_is_inverted_six_bits() {
    assert_eq!(frontlight_payload(0), [0, 63]);
    assert_eq!(frontlight_payload(63), [0, 0]);
    assert_eq!(frontlight_payload(64 + 10), [0, 53]);
}
