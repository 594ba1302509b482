//! The draggable thumb of a scrollbar: a small state machine driven by
//! pointer press, move and release, and the content position it implies.
use vstd::prelude::*;
use vstd::arithmetic::div_mod::lemma_fundamental_div_mod_converse;
use crate::scroll::ScrollRegion;

verus! {

/// A thumb of `thumb_height` pixels at `thumb_top`, moving inside a track
/// that starts at `track_top` and is `track_height` pixels long.
/// While `is_dragging`, `drag_anchor` is the distance from the thumb's top to
/// the point where it was grabbed.
pub struct DragState {
    pub track_top: i32,
    pub track_height: i32,
    pub thumb_top: i32,
    pub thumb_height: i32,
    pub is_dragging: bool,
    pub drag_anchor: i32,
}

/// One pointer event, with the pointer's vertical position where it has one.
#[derive(Clone, Copy, Debug, PartialEq, Eq)]
pub enum PointerEvent {
    Press(i32),
    Move(i32),
    Release,
}

/// Whether a press at `y` falls on the thumb (both ends included).
pub open spec fn press_hits(thumb_top: int, thumb_height: int, y: int) -> bool {
    thumb_top <= y && y <= thumb_top + thumb_height
}

/// A proposed thumb top, pinned so that the thumb stays inside the track.
pub open spec fn clamp_thumb(proposed: int, track_top: int, track_height: int, thumb_height: int) -> int {
    if proposed < track_top {
        track_top
    } else if proposed + thumb_height > track_top + track_height {
        track_top + track_height - thumb_height
    } else {
        proposed
    }
}

/// How far the content moves for a thumb at `thumb_top`:
/// `(track_top - thumb_top) / track_height` of the scrollable extent
/// `content_height - viewport_height`, rounded down to a whole pixel.
pub open spec fn thumb_scroll_amount(
    track_top: int,
    track_height: int,
    thumb_top: int,
    viewport_height: int,
    content_height: int,
) -> int {
    ((track_top - thumb_top) * (content_height - viewport_height)) / track_height
}

/// Dividing a value below `d * bound + d` by `d` gives at most `bound`.
proof fn lemma_quotient_bound(x: int, d: int, bound: int)
    requires
        d > 0,
        0 <= x < d * bound + d,
    ensures
        x / d <= bound,
{
    let q = x / d;
    let r = x % d;
    assert(x == d * q + r && 0 <= r < d) by {
        vstd::arithmetic::div_mod::lemma_fundamental_div_mod(x, d);
    }
    assert(q <= bound) by (nonlinear_arith)
        requires
            x == d * q + r,
            0 <= r,
            x < d * bound + d,
            d > 0,
    ;
}

/// Each pointer event keeps a well-formed thumb well formed.
pub proof fn lemma_step_keeps_wf(s: DragState, event: PointerEvent)
    requires
        s.wf(),
    ensures
        s.step(event).wf(),
{
}

/// Whatever sequence of presses, moves and releases arrives, the thumb stays
/// inside its track: its top is between `track_top` and
/// `track_top + track_height - thumb_height`.
pub proof fn lemma_thumb_stays_in_track(s: DragState, events: Seq<PointerEvent>)
    requires
        s.wf(),
    ensures
        s.after_events(events).wf(),
        s.track_top <= s.after_events(events).thumb_top,
        s.after_events(events).thumb_top <= s.track_top + s.track_height - s.thumb_height,
    decreases events.len(),
{
    if events.len() > 0 {
        lemma_step_keeps_wf(s, events[0]);
        lemma_thumb_stays_in_track(s.step(events[0]), events.drop_first());
    }
}

/// A release ends any drag, wherever the pointer is and whatever came before,
/// and leaves the thumb where it is.
pub proof fn lemma_release_ends_drag(s: DragState, events: Seq<PointerEvent>)
    ensures
        !s.after_events(events).step(PointerEvent::Release).is_dragging,
        s.after_events(events).step(PointerEvent::Release).thumb_top == s.after_events(events).thumb_top,
{
}

impl DragState {
    pub open spec fn wf(&self) -> bool {
        &&& self.track_height > 0
        &&& 0 <= self.thumb_height <= self.track_height
        &&& self.track_top + self.track_height <= i32::MAX
        &&& self.track_top <= self.thumb_top
        &&& self.thumb_top + self.thumb_height <= self.track_top + self.track_height
        &&& self.is_dragging ==> 0 <= self.drag_anchor <= self.thumb_height
    }

    /// The state after a pointer press at `y`: a press on the thumb starts a
    /// drag anchored at the grab point; any other press changes nothing.
    pub open spec fn pressed_at(self, y: int) -> DragState {
        if press_hits(self.thumb_top as int, self.thumb_height as int, y) {
            DragState { is_dragging: true, drag_anchor: (y - self.thumb_top) as i32, ..self }
        } else {
            self
        }
    }

    /// The state after the pointer moves to `y`: while dragging, the thumb
    /// follows the pointer, pinned to the track; otherwise nothing changes.
    pub open spec fn moved_to(self, y: int) -> DragState {
        if self.is_dragging {
            DragState {
                thumb_top: clamp_thumb(
                    y - self.drag_anchor,
                    self.track_top as int,
                    self.track_height as int,
                    self.thumb_height as int,
                ) as i32,
                ..self
            }
        } else {
            self
        }
    }

    /// The state after the pointer is released: never dragging.
    pub open spec fn released(self) -> DragState {
        DragState { is_dragging: false, ..self }
    }

    /// The state after one pointer event.
    pub open spec fn step(self, event: PointerEvent) -> DragState {
        match event {
            PointerEvent::Press(y) => self.pressed_at(y as int),
            PointerEvent::Move(y) => self.moved_to(y as int),
            PointerEvent::Release => self.released(),
        }
    }

    /// The state after a sequence of pointer events, in order.
    pub open spec fn after_events(self, events: Seq<PointerEvent>) -> DragState
        decreases events.len(),
    {
        if events.len() == 0 {
            self
        } else {
            self.step(events[0]).after_events(events.drop_first())
        }
    }

    /// One frame of input: a press (seen at the cursor), then, while
    /// dragging, a move to the cursor and a release.
    pub open spec fn after_frame(self, pressed: bool, released: bool, cursor: Option<i32>) -> DragState {
        let s1 = if pressed && cursor is Some {
            self.pressed_at(cursor->0 as int)
        } else {
            self
        };
        if s1.is_dragging {
            let s2 = if cursor is Some {
                s1.moved_to(cursor->0 as int)
            } else {
                s1
            };
            if released {
                s2.released()
            } else {
                s2
            }
        } else {
            s1
        }
    }

    /// An idle thumb at the top of its track.
    pub fn new(track_top: i32, track_height: i32, thumb_height: i32) -> (r: DragState)
        requires
            track_height > 0,
            0 <= thumb_height <= track_height,
            track_top + track_height <= i32::MAX,
        ensures
            r.wf(),
            r.track_top == track_top,
            r.track_height == track_height,
            r.thumb_height == thumb_height,
            r.thumb_top == track_top,
            !r.is_dragging,
            r.drag_anchor == 0,
    {
        DragState {
            track_top,
            track_height,
            thumb_top: track_top,
            thumb_height,
            is_dragging: false,
            drag_anchor: 0,
        }
    }

    /// Handles a pointer press at `y`.
    pub fn press(&mut self, y: i32)
        requires
            old(self).wf(),
        ensures
            final(self).wf(),
            *final(self) == old(self).pressed_at(y as int),
    {
        let bottom: i64 = self.thumb_top as i64 + self.thumb_height as i64;
        if self.thumb_top <= y && y as i64 <= bottom {
            self.is_dragging = true;
            self.drag_anchor = y - self.thumb_top;
        }
    }

    /// Handles a pointer move to `y`.
    pub fn move_pointer(&mut self, y: i32)
        requires
            old(self).wf(),
        ensures
            final(self).wf(),
            *final(self) == old(self).moved_to(y as int),
    {
        if self.is_dragging {
            let proposed: i64 = y as i64 - self.drag_anchor as i64;
            let track_end: i64 = self.track_top as i64 + self.track_height as i64;
            if proposed < self.track_top as i64 {
                self.thumb_top = self.track_top;
            } else if proposed + self.thumb_height as i64 > track_end {
                self.thumb_top = (track_end - self.thumb_height as i64) as i32;
            } else {
                self.thumb_top = proposed as i32;
            }
        }
    }

    /// Handles a pointer release, wherever the pointer is.
    pub fn release(&mut self)
        requires
            old(self).wf(),
        ensures
            final(self).wf(),
            *final(self) == old(self).released(),
    {
        self.is_dragging = false;
    }

    /// Handles one pointer event.
    pub fn handle(&mut self, event: PointerEvent)
        requires
            old(self).wf(),
        ensures
            final(self).wf(),
            *final(self) == old(self).step(event),
    {
        match event {
            PointerEvent::Press(y) => self.press(y),
            PointerEvent::Move(y) => self.move_pointer(y),
            PointerEvent::Release => self.release(),
        }
    }

    /// Handles one frame of pointer input: whether the button went down and
    /// whether it went up this frame, and the cursor position if the pointer
    /// is over the window.
    pub fn update(&mut self, pressed: bool, released: bool, cursor: Option<i32>)
        requires
            old(self).wf(),
        ensures
            final(self).wf(),
            *final(self) == old(self).after_frame(pressed, released, cursor),
    {
        if pressed {
            if let Some(y) = cursor {
                self.press(y);
            }
        }
        if self.is_dragging {
            if let Some(y) = cursor {
                self.move_pointer(y);
            }
            if released {
                self.release();
            }
        }
    }

    /// The content pane's top as the thumb's position dictates:
    /// `viewport_top` minus the thumb's fraction of the scrollable extent.
    pub fn content_view_top(&self, region: &ScrollRegion) -> (r: i64)
        requires
            self.wf(),
            region.wf(),
        ensures
            r == region.viewport_top - thumb_scroll_amount(
                self.track_top as int,
                self.track_height as int,
                self.thumb_top as int,
                region.viewport_height as int,
                region.content_height as int,
            ),
    {
        let moved: u64 = (self.thumb_top as i64 - self.track_top as i64) as u64;
        let d: u64 = self.track_height as u64;
        let extent: i64 = region.content_height as i64 - region.viewport_height as i64;
        let span: u64 = if extent < 0 { (-extent) as u64 } else { extent as u64 };
        assert(moved * span <= 0x8000_0000u64 * 0x1_0000_0000u64) by (nonlinear_arith)
            requires
                moved <= 0x8000_0000u64,
                span <= 0x1_0000_0000u64,
        ;
        let a: u64 = moved * span;
        assert(a <= d * span) by (nonlinear_arith)
            requires
                a == moved * span,
                moved <= d,
        ;
        let amount: i64;
        if extent <= 0 {
            // The numerator is non-negative: plain division rounds down.
            let q: u64 = a / d;
            proof {
                assert((-(moved as int)) * (extent as int) == a as int) by (nonlinear_arith)
                    requires
                        span == -(extent as int),
                        a == moved * span,
                ;
                lemma_quotient_bound(a as int, d as int, span as int);
            }
            amount = q as i64;
        } else {
            // The numerator is negative: round its magnitude up.
            let q: u64 = (a + (d - 1)) / d;
            proof {
                let r0: int = (a + (d - 1)) as int % d as int;
                lemma_quotient_bound((a + (d - 1)) as int, d as int, span as int);
                assert((a + (d - 1)) as int == d as int * q as int + r0) by (nonlinear_arith)
                    requires
                        q == (a + (d - 1)) as int / d as int,
                        r0 == (a + (d - 1)) as int % d as int,
                        d > 0,
                ;
                assert(0 <= r0 < d);
                assert((-(moved as int)) * (extent as int) == -(a as int)) by (nonlinear_arith)
                    requires
                        span == extent,
                        a == moved * span,
                ;
                assert(-(a as int) == (-(q as int)) * (d as int) + (d - 1 - r0)) by (nonlinear_arith)
                    requires
                        (a + (d - 1)) as int == d as int * q as int + r0,
                ;
                lemma_fundamental_div_mod_converse(-(a as int), d as int, -(q as int), d - 1 - r0);
            }
            amount = -(q as i64);
        }
        region.viewport_top as i64 - amount
    }
}

} // verus!
