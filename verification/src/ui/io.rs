//! Input and flush bookkeeping between the touch pipeline and LVGL: the
//! pointer state LVGL polls and the dirty region accumulated over flushes.
use vstd::prelude::*;

use super::dither::DirtyArea;
use crate::touch::event::{TouchEvent, TouchEventKind};

verus! {

/// The pointer LVGL reads: last position and whether it is pressed.
#[derive(Clone, Copy, Debug, Eq, PartialEq, Structural)]
pub struct PointerState {
    pub x: i32,
    pub y: i32,
    pub pressed: bool,
}

/// The pointer after a touch event: contact and motion press at the event's
/// position, release and cancel lift there, taps and swipes leave it alone.
pub open spec fn pointer_after(p: PointerState, e: TouchEvent) -> PointerState {
    match e.kind {
        TouchEventKind::Down | TouchEventKind::Move | TouchEventKind::LongPress => PointerState {
            x: e.x as i32,
            y: e.y as i32,
            pressed: true,
        },
        TouchEventKind::Up | TouchEventKind::Cancel => PointerState { x: e.x as i32, y: e.y as i32, pressed: false },
        _ => p,
    }
}

impl PointerState {
    /// Released at the origin.
    pub fn new() -> (r: Self)
        ensures
            r == (PointerState { x: 0, y: 0, pressed: false }),
    {
        PointerState { x: 0, y: 0, pressed: false }
    }

    /// Feeds a touch event to the pointer.
    pub fn update_touch(&mut self, event: TouchEvent)
        ensures
            *final(self) == pointer_after(*old(self), event),
    {
        match event.kind {
            TouchEventKind::Down | TouchEventKind::Move | TouchEventKind::LongPress => {
                self.x = event.x as i32;
                self.y = event.y as i32;
                self.pressed = true;
            },
            TouchEventKind::Up | TouchEventKind::Cancel => {
                self.x = event.x as i32;
                self.y = event.y as i32;
                self.pressed = false;
            },
            TouchEventKind::Tap | TouchEventKind::Swipe(_) => {},
        }
    }
}

/// The panel size the dirty region starts from when reset.
pub const PANEL_WIDTH: i32 = 600;
pub const PANEL_HEIGHT: i32 = 600;

/// The region flushed since the last reset, as raw bounds; it is empty while
/// the bounds are inverted.
#[derive(Clone, Copy, Debug, Eq, PartialEq, Structural)]
pub struct DirtyTracker {
    pub x1: i32,
    pub y1: i32,
    pub x2: i32,
    pub y2: i32,
}

/// The empty region: inverted bounds.
pub open spec fn reset_tracker() -> DirtyTracker {
    DirtyTracker { x1: PANEL_WIDTH, y1: PANEL_HEIGHT, x2: -1i32, y2: -1i32 }
}

/// The region, if not empty.
pub open spec fn dirty_spec(t: DirtyTracker) -> Option<DirtyArea> {
    if t.x1 <= t.x2 && t.y1 <= t.y2 {
        Some(DirtyArea { x1: t.x1, y1: t.y1, x2: t.x2, y2: t.y2 })
    } else {
        None
    }
}

/// The smallest rectangle covering both.
pub open spec fn union_spec(a: DirtyArea, b: DirtyArea) -> DirtyArea {
    DirtyArea {
        x1: if a.x1 <= b.x1 { a.x1 } else { b.x1 },
        y1: if a.y1 <= b.y1 { a.y1 } else { b.y1 },
        x2: if a.x2 >= b.x2 { a.x2 } else { b.x2 },
        y2: if a.y2 >= b.y2 { a.y2 } else { b.y2 },
    }
}

/// The region after recording a flushed area: the area itself when empty,
/// otherwise the union.
pub open spec fn record_spec(t: DirtyTracker, area: DirtyArea) -> DirtyTracker {
    let d = match dirty_spec(t) {
        None => area,
        Some(c) => union_spec(c, area),
    };
    DirtyTracker { x1: d.x1, y1: d.y1, x2: d.x2, y2: d.y2 }
}

impl DirtyTracker {
    /// An empty region.
    pub fn new() -> (r: Self)
        ensures
            r == reset_tracker(),
    {
        DirtyTracker { x1: PANEL_WIDTH, y1: PANEL_HEIGHT, x2: -1, y2: -1 }
    }

    /// Empties the region.
    pub fn reset_dirty_area(&mut self)
        ensures
            *final(self) == reset_tracker(),
    {
        self.x1 = PANEL_WIDTH;
        self.y1 = PANEL_HEIGHT;
        self.x2 = -1;
        self.y2 = -1;
    }

    /// Adds a flushed area to the region.
    pub fn record_dirty_area(&mut self, area: DirtyArea)
        ensures
            *final(self) == record_spec(*old(self), area),
    {
        let dirty = match self.dirty_area() {
            None => area,
            Some(current) => current.union(area),
        };
        self.x1 = dirty.x1;
        self.y1 = dirty.y1;
        self.x2 = dirty.x2;
        self.y2 = dirty.y2;
    }

    /// The region, unless empty.
    pub fn dirty_area(&self) -> (r: Option<DirtyArea>)
        ensures
            r == dirty_spec(*self),
    {
        if self.x1 <= self.x2 && self.y1 <= self.y2 {
            Some(DirtyArea { x1: self.x1, y1: self.y1, x2: self.x2, y2: self.y2 })
        } else {
            None
        }
    }

    /// Hands out the region and empties it.
    pub fn take_dirty_area(&mut self) -> (r: Option<DirtyArea>)
        ensures
            r == dirty_spec(*old(self)),
            *final(self) == reset_tracker(),
    {
        let area = self.dirty_area();
        self.reset_dirty_area();
        area
    }

    /// Ends a flush cycle: the region flushed during it, now emptied.
    pub fn finish(&mut self) -> (r: Option<DirtyArea>)
        ensures
            r == dirty_spec(*old(self)),
            *final(self) == reset_tracker(),
    {
        self.take_dirty_area()
    }
}

/// Recording areas one after another from an empty region covers every
/// area recorded: the region is non-empty and contains each valid area.
pub proof fn lemma_record_covers(t: DirtyTracker, area: DirtyArea)
    requires
        area.x1 <= area.x2 && area.y1 <= area.y2,
    ensures
        dirty_spec(record_spec(t, area)) is Some,
        ({
            let d = dirty_spec(record_spec(t, area))->0;
            d.x1 <= area.x1 && d.y1 <= area.y1 && d.x2 >= area.x2 && d.y2 >= area.y2
        }),
        dirty_spec(t) matches Some(c) ==> ({
            let d = dirty_spec(record_spec(t, area))->0;
            d.x1 <= c.x1 && d.y1 <= c.y1 && d.x2 >= c.x2 && d.y2 >= c.y2
        }),
{
}

} // verus!
