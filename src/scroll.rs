//! The scroll offset of a content pane, moved by the mouse wheel.
use vstd::prelude::*;

verus! {

/// A pane that shows a window of `viewport_height` pixels onto content of
/// `content_height` pixels, scrolled down by `content_offset` pixels.
pub struct ScrollRegion {
    pub viewport_top: i32,
    pub viewport_height: i32,
    pub content_height: i32,
    pub content_offset: i32,
}

/// The largest offset the content may be scrolled to (never negative).
pub open spec fn max_offset(viewport_height: int, content_height: int) -> int {
    if content_height - viewport_height > 0 {
        content_height - viewport_height
    } else {
        0
    }
}

/// Whether a proposed offset lies in `[0, content_height - viewport_height]`.
/// When the content fits in the viewport this range is empty.
pub open spec fn offset_in_range(offset: int, viewport_height: int, content_height: int) -> bool {
    0 <= offset && offset <= content_height - viewport_height
}

/// The offset after a wheel delta: the whole delta is taken when the result
/// stays in range, and none of it otherwise.
pub open spec fn wheel_result(offset: int, delta: int, viewport_height: int, content_height: int) -> int {
    if offset_in_range(offset + delta, viewport_height, content_height) {
        offset + delta
    } else {
        offset
    }
}

/// A frame without wheel movement leaves a well-formed region exactly as it
/// was, including one whose content fits in the viewport.
pub proof fn lemma_zero_delta_keeps_region(r: ScrollRegion)
    requires
        r.wf(),
    ensures
        r.wheeled(0) == r,
{
}

impl ScrollRegion {
    /// The region after one frame's wheel movement of `delta`.
    pub open spec fn wheeled(self, delta: int) -> ScrollRegion {
        ScrollRegion {
            content_offset: wheel_result(
                self.content_offset as int,
                delta,
                self.viewport_height as int,
                self.content_height as int,
            ) as i32,
            ..self
        }
    }

    pub open spec fn wf(&self) -> bool {
        &&& self.viewport_height > 0
        &&& 0 <= self.content_offset
        &&& self.content_offset <= max_offset(self.viewport_height as int, self.content_height as int)
    }

    /// A region scrolled to the top.
    pub fn new(viewport_top: i32, viewport_height: i32, content_height: i32) -> (r: ScrollRegion)
        requires
            viewport_height > 0,
        ensures
            r.wf(),
            r.viewport_top == viewport_top,
            r.viewport_height == viewport_height,
            r.content_height == content_height,
            r.content_offset == 0,
    {
        ScrollRegion { viewport_top, viewport_height, content_height, content_offset: 0 }
    }

    /// Applies the summed wheel movement of one frame. The offset moves by
    /// exactly `delta` when that keeps it in range; otherwise it stays where
    /// it was, even if part of the movement would have fit.
    pub fn apply_wheel_delta(&mut self, delta: i32)
        requires
            old(self).wf(),
        ensures
            final(self).wf(),
            *final(self) == old(self).wheeled(delta as int),
            final(self).content_offset == wheel_result(
                old(self).content_offset as int,
                delta as int,
                old(self).viewport_height as int,
                old(self).content_height as int,
            ),
    {
        let proposed: i64 = self.content_offset as i64 + delta as i64;
        let limit: i64 = self.content_height as i64 - self.viewport_height as i64;
        if 0 <= proposed && proposed <= limit {
            self.content_offset = proposed as i32;
        }
    }

    /// The top of the content pane relative to its layout position.
    pub fn pane_top(&self) -> (r: i64)
        ensures
            r == self.content_offset - self.viewport_top,
    {
        self.content_offset as i64 - self.viewport_top as i64
    }
}

} // verus!
