//! Button rectangles of the wizard screens, as `(left, top, width, height)`.
use vstd::prelude::*;

use super::wizard::{
    CONTINUE_BUTTON_HEIGHT, CONTINUE_BUTTON_WIDTH, SWIPE_MARK_BUTTON_HEIGHT, SWIPE_MARK_BUTTON_WIDTH,
};

verus! {

/// A button rectangle: left, top, width, height.
pub type ButtonBounds = (i32, i32, i32, i32);

/// `max(min(preferred, avail), floor)`.
pub open spec fn fit_width(preferred: int, avail: int, floor: int) -> int {
    let m = if preferred <= avail { preferred } else { avail };
    if m >= floor { m } else { floor }
}

/// The continue / skip / exit button, centred above the bottom edge.
pub open spec fn continue_bounds_spec(width: int, height: int) -> (int, int, int, int) {
    let w = fit_width(CONTINUE_BUTTON_WIDTH as int, width - 24, 80);
    (trunc(width - w, 2), height - 108, w, CONTINUE_BUTTON_HEIGHT as int)
}

/// The "I just swiped" button, centred above the continue button.
pub open spec fn swipe_mark_bounds_spec(width: int, height: int) -> (int, int, int, int) {
    let w = fit_width(SWIPE_MARK_BUTTON_WIDTH as int, width - 24, 100);
    (trunc(width - w, 2), height - 166, w, SWIPE_MARK_BUTTON_HEIGHT as int)
}

/// Calibrate and test side by side, continue centred one row below.
pub open spec fn precision_menu_bounds_spec(width: int, height: int) -> ((int, int, int, int), (int, int, int, int), (int, int, int, int)) {
    let button_width = if trunc(width - 96 - 24, 2) >= 100 { trunc(width - 96 - 24, 2) } else { 100 };
    let first_top = trunc(height, 2) - 72;
    let continue_width = fit_width(240, width - 96, 120);
    (
        (48, first_top, button_width, 58),
        (48 + button_width + 24, first_top, button_width, 58),
        (trunc(width - continue_width, 2), first_top + 58 + 34, continue_width, 58),
    )
}

/// The coordinate-mode toggle, centred on the surface.
pub open spec fn test_toggle_bounds_spec(width: int, height: int) -> (int, int, int, int) {
    let w = fit_width(320, width - 48, 160);
    (trunc(width - w, 2), trunc(height - 58, 2), w, 58)
}

/// Division rounding toward zero.
pub open spec fn trunc(n: int, d: int) -> int {
    crate::arith::trunc_div(n, d)
}

/// Whether `(x, y)` lies in the half-open rectangle.
pub open spec fn in_bounds(x: int, y: int, b: (int, int, int, int)) -> bool {
    x >= b.0 && x < b.0 + b.2 && y >= b.1 && y < b.1 + b.3
}

/// Widens a rectangle to integers.
pub open spec fn bounds_int(b: ButtonBounds) -> (int, int, int, int) {
    (b.0 as int, b.1 as int, b.2 as int, b.3 as int)
}

fn fit(preferred: i32, avail: i32, floor: i32) -> (r: i32)
    ensures
        r == fit_width(preferred as int, avail as int, floor as int),
{
    let m = if preferred <= avail { preferred } else { avail };
    if m >= floor { m } else { floor }
}

/// The continue button.
pub fn continue_button_bounds(width: i32, height: i32) -> (r: ButtonBounds)
    requires
        width >= i32::MIN + 80,
        height >= i32::MIN + 108,
    ensures
        bounds_int(r) == continue_bounds_spec(width as int, height as int),
{
    let w = fit(CONTINUE_BUTTON_WIDTH, width - 24, 80);
    let h = CONTINUE_BUTTON_HEIGHT;
    let left = (width - w) / 2;
    let top = height - 108;
    (left, top, w, h)
}

/// The swipe-mark button.
pub fn swipe_mark_button_bounds(width: i32, height: i32) -> (r: ButtonBounds)
    requires
        width >= i32::MIN + 100,
        height >= i32::MIN + 166,
    ensures
        bounds_int(r) == swipe_mark_bounds_spec(width as int, height as int),
{
    let w = fit(SWIPE_MARK_BUTTON_WIDTH, width - 24, 100);
    let h = SWIPE_MARK_BUTTON_HEIGHT;
    let left = (width - w) / 2;
    let top = height - 166;
    (left, top, w, h)
}

/// The calibrate, test and continue buttons of the precision menu.
pub fn precision_menu_button_bounds(width: i32, height: i32) -> (r: (ButtonBounds, ButtonBounds, ButtonBounds))
    requires
        width >= i32::MIN + 120,
    ensures
        (bounds_int(r.0), bounds_int(r.1), bounds_int(r.2)) == precision_menu_bounds_spec(width as int, height as int),
{
    let gap: i32 = 24;
    let side_margin: i32 = 48;
    let half = (width - side_margin * 2 - gap) / 2;
    let button_width = if half >= 100 { half } else { 100 };
    let button_height: i32 = 58;
    let first_top = height / 2 - 72;
    let calibrate = (side_margin, first_top, button_width, button_height);
    let test = (side_margin + button_width + gap, first_top, button_width, button_height);
    let continue_width = fit(240, width - side_margin * 2, 120);
    let continue_button = (
        (width - continue_width) / 2,
        first_top + button_height + 34,
        continue_width,
        button_height,
    );
    (calibrate, test, continue_button)
}

/// The coordinate-mode toggle of the precision test.
pub fn test_toggle_bounds(width: i32, height: i32) -> (r: ButtonBounds)
    requires
        width >= i32::MIN + 160,
        height >= i32::MIN + 58,
    ensures
        bounds_int(r) == test_toggle_bounds_spec(width as int, height as int),
{
    let button_width = fit(320, width - 48, 160);
    let button_height: i32 = 58;
    ((width - button_width) / 2, (height - button_height) / 2, button_width, button_height)
}

/// The return button of the precision test sits where the continue button is.
pub fn test_return_bounds(width: i32, height: i32) -> (r: ButtonBounds)
    requires
        width >= i32::MIN + 80,
        height >= i32::MIN + 108,
    ensures
        bounds_int(r) == continue_bounds_spec(width as int, height as int),
{
    continue_button_bounds(width, height)
}

/// Whether `(x, y)` lies in the rectangle.
pub fn point_in_bounds(x: i32, y: i32, bounds: ButtonBounds) -> (r: bool)
    requires
        i32::MIN <= bounds.0 + bounds.2 <= i32::MAX,
        i32::MIN <= bounds.1 + bounds.3 <= i32::MAX,
    ensures
        r == in_bounds(x as int, y as int, bounds_int(bounds)),
{
    let (left, top, width, height) = bounds;
    x >= left && x < left + width && y >= top && y < top + height
}

} // verus!
