//! Completed multi-touch gestures handed from LVGL's recognizer callback to
//! the UI loop: the swipe direction and the bounded queue between them,
//! which keeps the newest gestures when it overflows.
use vstd::prelude::*;

use crate::shell::types::OverlayInput;

verus! {

/// Direction of a two-finger swipe.
#[derive(Clone, Copy, Debug, PartialEq, Eq, Structural)]
pub enum LvglGestureDirection {
    Left,
    Right,
    Up,
    Down,
    Unknown,
}

/// LVGL's direction bits.
pub const LV_DIR_LEFT: u8 = 1;
pub const LV_DIR_RIGHT: u8 = 2;
pub const LV_DIR_TOP: u8 = 4;
pub const LV_DIR_BOTTOM: u8 = 8;

/// The direction an LVGL direction value names; anything but a single
/// cardinal direction is unknown.
pub open spec fn direction_of(direction: u8) -> LvglGestureDirection {
    if direction == LV_DIR_LEFT {
        LvglGestureDirection::Left
    } else if direction == LV_DIR_RIGHT {
        LvglGestureDirection::Right
    } else if direction == LV_DIR_TOP {
        LvglGestureDirection::Up
    } else if direction == LV_DIR_BOTTOM {
        LvglGestureDirection::Down
    } else {
        LvglGestureDirection::Unknown
    }
}

/// Maps an LVGL direction value to a swipe direction.
pub fn map_direction(direction: u8) -> (r: LvglGestureDirection)
    ensures
        r == direction_of(direction),
{
    if direction == LV_DIR_LEFT {
        LvglGestureDirection::Left
    } else if direction == LV_DIR_RIGHT {
        LvglGestureDirection::Right
    } else if direction == LV_DIR_TOP {
        LvglGestureDirection::Up
    } else if direction == LV_DIR_BOTTOM {
        LvglGestureDirection::Down
    } else {
        LvglGestureDirection::Unknown
    }
}

/// The word a direction is reported with.
pub open spec fn direction_word(d: LvglGestureDirection) -> &'static str {
    match d {
        LvglGestureDirection::Left => "left",
        LvglGestureDirection::Right => "right",
        LvglGestureDirection::Up => "up",
        LvglGestureDirection::Down => "down",
        LvglGestureDirection::Unknown => "unknown",
    }
}

/// The word a direction is reported with on the gesture test screen.
pub fn direction_label(direction: LvglGestureDirection) -> (r: &'static str)
    ensures
        r@ == direction_word(direction)@,
{
    match direction {
        LvglGestureDirection::Left => "left",
        LvglGestureDirection::Right => "right",
        LvglGestureDirection::Up => "up",
        LvglGestureDirection::Down => "down",
        LvglGestureDirection::Unknown => "unknown",
    }
}

/// How many completed gestures wait for the UI loop at most.
pub const GESTURE_QUEUE_CAPACITY: usize = 8;

/// The queue after a gesture arrives: when full, the oldest is dropped to
/// make room.
pub open spec fn after_push<T>(q: Seq<T>, g: T) -> Seq<T> {
    if q.len() >= GESTURE_QUEUE_CAPACITY {
        q.drop_first().push(g)
    } else {
        q.push(g)
    }
}

/// Completed gestures, oldest first.
pub struct GestureQueue<T> {
    events: Vec<T>,
}

impl<T> GestureQueue<T> {
    /// The waiting gestures, oldest first.
    pub closed spec fn view(&self) -> Seq<T> {
        self.events@
    }

    /// Never more than the capacity.
    pub closed spec fn wf(&self) -> bool {
        self.events@.len() <= GESTURE_QUEUE_CAPACITY
    }

    /// An empty queue.
    pub fn new() -> (r: Self)
        ensures
            r.wf(),
            r.view() == Seq::<T>::empty(),
    {
        GestureQueue { events: Vec::new() }
    }

    /// Number of waiting gestures.
    pub fn len(&self) -> (r: usize)
        ensures
            r == self.view().len(),
    {
        self.events.len()
    }

    /// Adds a completed gesture, dropping the oldest when the queue is full.
    pub fn push_latest(&mut self, gesture: T)
        requires
            old(self).wf(),
        ensures
            final(self).wf(),
            final(self).view() == after_push(old(self).view(), gesture),
    {
        if self.events.len() >= GESTURE_QUEUE_CAPACITY {
            let _ = self.events.remove(0);
        }
        self.events.push(gesture);
        proof {
            assert(self.events@ =~= after_push(old(self).view(), gesture));
        }
    }

    /// Takes the oldest waiting gesture.
    pub fn take_gesture(&mut self) -> (r: Option<T>)
        requires
            old(self).wf(),
        ensures
            final(self).wf(),
            old(self).view().len() == 0 ==> r is None && final(self).view() == old(self).view(),
            old(self).view().len() > 0 ==> r == Some(old(self).view()[0]) && final(self).view()
                == old(self).view().drop_first(),
    {
        if self.events.len() == 0 {
            None
        } else {
            let g = self.events.remove(0);
            proof {
                assert(self.events@ =~= old(self).view().drop_first());
            }
            Some(g)
        }
    }
}

/// After any run of arrivals the queue holds the newest gestures, at most
/// the capacity of them, in arrival order: the last `min(len, capacity)` of
/// everything that was there and arrived.
pub proof fn lemma_queue_keeps_newest<T>(q: Seq<T>, arrivals: Seq<T>)
    requires
        q.len() <= GESTURE_QUEUE_CAPACITY,
    ensures
        ({
            let all = q + arrivals;
            let kept = if all.len() > GESTURE_QUEUE_CAPACITY { GESTURE_QUEUE_CAPACITY as int } else { all.len() as int };
            pushed_all(q, arrivals) =~= all.subrange(all.len() - kept, all.len() as int)
        }),
    decreases arrivals.len(),
{
    if arrivals.len() > 0 {
        let init = arrivals.drop_last();
        lemma_queue_keeps_newest(q, init);
        let all0 = q + init;
        let all = q + arrivals;
        assert(all =~= all0.push(arrivals.last()));
        lemma_pushed_len(q, init);
    }
}

/// The queue after each of `arrivals` in turn.
pub open spec fn pushed_all<T>(q: Seq<T>, arrivals: Seq<T>) -> Seq<T>
    decreases arrivals.len(),
{
    if arrivals.len() == 0 {
        q
    } else {
        after_push(pushed_all(q, arrivals.drop_last()), arrivals.last())
    }
}

proof fn lemma_pushed_len<T>(q: Seq<T>, arrivals: Seq<T>)
    requires
        q.len() <= GESTURE_QUEUE_CAPACITY,
    ensures
        pushed_all(q, arrivals).len() <= GESTURE_QUEUE_CAPACITY,
    decreases arrivals.len(),
{
    if arrivals.len() > 0 {
        lemma_pushed_len(q, arrivals.drop_last());
    }
}

/// The base overlays every screen can show.
#[derive(Clone, Copy, Debug, PartialEq, Eq, Structural)]
pub enum BaseOverlayKind {
    NavigationCue,
    RefreshControl,
}

impl BaseOverlayKind {
    /// Whether the overlay takes input: the navigation cue is passive, the
    /// refresh control interactive.
    pub fn input(self) -> (r: OverlayInput)
        ensures
            r == (match self {
                BaseOverlayKind::NavigationCue => OverlayInput::Passive,
                BaseOverlayKind::RefreshControl => OverlayInput::Interactive,
            }),
    {
        match self {
            BaseOverlayKind::NavigationCue => OverlayInput::Passive,
            BaseOverlayKind::RefreshControl => OverlayInput::Interactive,
        }
    }
}

} // verus!
