//! The click/drag gesture classifier.
//!
//! A press is classified from plain per-frame samples: pointer-down flag,
//! pointer position, and the sample time in milliseconds. A press becomes a
//! drag once it has lasted longer than a threshold duration or the pointer
//! has moved further than a threshold distance from the original press
//! point; a release before the duration threshold fires a discrete click
//! for exactly that one sample.

use crate::geometry::{dist_sq, spec_dist_sq, Point};
use vstd::prelude::*;

verus! {

/// Milliseconds a press must last before it counts as a drag.
pub const DRAG_MIN_DURATION_MS: u64 = 125;

/// Squared distance (in pixels) the pointer must move from the press point
/// before the press counts as a drag (5 pixels, squared).
pub const DRAG_MIN_DISTANCE_SQ: i64 = 25;

/// Press state carried between samples: time and position of the press.
pub struct ClickHandler {
    click_start: Option<(u64, Point)>,
    registered_click_this_frame: bool,
}

/// The press state after one sample is registered: a fresh press is
/// recorded, a held press is kept unchanged, a release clears it.
pub open spec fn spec_press_after(
    press: Option<(u64, Point)>,
    mouse_down: bool,
    now_ms: u64,
    position: Point,
) -> Option<(u64, Point)> {
    if mouse_down {
        if press is None {
            Some((now_ms, position))
        } else {
            press
        }
    } else {
        None
    }
}

/// Whether registering one sample fires a discrete click: the pointer came
/// up while a press existed that was younger than the drag duration.
pub open spec fn spec_click_fired(
    press: Option<(u64, Point)>,
    mouse_down: bool,
    now_ms: u64,
) -> bool {
    &&& !mouse_down
    &&& press matches Some(start) && now_ms - start.0 < DRAG_MIN_DURATION_MS
}

/// Whether a held press counts as a drag at the given time and position:
/// it has outlived the duration threshold, or the pointer has moved more
/// than the distance threshold from the original press point.
pub open spec fn spec_is_drag(
    press: Option<(u64, Point)>,
    now_ms: u64,
    position: Point,
) -> bool {
    press matches Some(start) && (now_ms - start.0 > DRAG_MIN_DURATION_MS
        || spec_dist_sq(start.1, position) > DRAG_MIN_DISTANCE_SQ)
}

impl ClickHandler {
    /// The recorded press, if one is active.
    pub closed spec fn press(&self) -> Option<(u64, Point)> {
        self.click_start
    }

    /// Whether the last registered sample fired a click.
    pub closed spec fn click_fired(&self) -> bool {
        self.registered_click_this_frame
    }

    /// The recorded press position is in coordinate range.
    pub closed spec fn wf(&self) -> bool {
        self.click_start matches Some(start) ==> start.1.in_range()
    }

    /// The sample clock has not run backwards past the recorded press.
    pub closed spec fn time_ok(&self, now_ms: u64) -> bool {
        self.click_start matches Some(start) ==> start.0 <= now_ms
    }

    pub fn new() -> (h: ClickHandler)
        ensures
            h.press() is None,
            !h.click_fired(),
            h.wf(),
            forall|t: u64| h.time_ok(t),
    {
        ClickHandler { click_start: None, registered_click_this_frame: false }
    }

    /// Advances the press state by one sample and decides whether a click
    /// fires this sample.
    pub fn register_mouse_button_status(
        &mut self,
        mouse_down: bool,
        now_ms: u64,
        mouse_position: Point,
    )
        requires
            old(self).wf(),
            old(self).time_ok(now_ms),
            mouse_position.in_range(),
        ensures
            final(self).press() == spec_press_after(
                old(self).press(),
                mouse_down,
                now_ms,
                mouse_position,
            ),
            final(self).click_fired() == spec_click_fired(
                old(self).press(),
                mouse_down,
                now_ms,
            ),
            final(self).wf(),
            final(self).time_ok(now_ms),
    {
        self.registered_click_this_frame = false;

        if mouse_down {
            if self.click_start.is_none() {
                self.click_start = Some((now_ms, mouse_position));
            }
        } else {
            if let Some(start) = self.click_start {
                let time_since_start = now_ms - start.0;
                self.registered_click_this_frame = time_since_start < DRAG_MIN_DURATION_MS;
                self.click_start = None;
            }
        }
    }

    /// Whether the active press counts as a drag at this time and position.
    pub fn mouse_drag(&self, now_ms: u64, mouse_position: Point) -> (r: bool)
        requires
            self.wf(),
            self.time_ok(now_ms),
            mouse_position.in_range(),
        ensures
            r == spec_is_drag(self.press(), now_ms, mouse_position),
    {
        if let Some(start) = self.click_start {
            let time_since_start = now_ms - start.0;
            let drag_distance_sq = dist_sq(start.1, mouse_position);
            return time_since_start > DRAG_MIN_DURATION_MS
                || drag_distance_sq > DRAG_MIN_DISTANCE_SQ;
        }
        false
    }

    /// Whether the last registered sample fired a click.
    pub fn mouse_click(&self) -> (r: bool)
        ensures
            r == self.click_fired(),
    {
        self.registered_click_this_frame
    }
}

} // verus!
