//! The viewer window: how far the triangle is turned.

use vstd::prelude::*;

verus! {

/// How much a drag of one unit turns the triangle: a hundredth of a radian
/// per unit dragged.
pub const DRAG_DIVISOR: i64 = 100;

/// The angle after a horizontal drag of `drag`, both fixed-point: the drag
/// adds a hundredth of itself, rounded towards zero. The only limit is that
/// of the 64-bit integer that holds the angle: a sum that would leave its
/// range stays at its end.
pub open spec fn turned(angle: int, drag: int) -> int {
    let delta = if drag >= 0 {
        drag / 100
    } else {
        -((-drag) / 100)
    };
    if angle + delta > i64::MAX {
        i64::MAX as int
    } else if angle + delta < i64::MIN {
        i64::MIN as int
    } else {
        angle + delta
    }
}

pub struct RenderingManager {
    show_triangler: bool,
    angle: i64,
}

/// The viewer as plain values.
pub struct ViewerView {
    pub show_triangler: bool,
    pub angle: int,
}

impl View for RenderingManager {
    type V = ViewerView;

    closed spec fn view(&self) -> ViewerView {
        ViewerView { show_triangler: self.show_triangler, angle: self.angle as int }
    }
}

impl RenderingManager {
    /// The viewer as first created: the triangle shown, not turned.
    pub fn new() -> (manager: RenderingManager)
        ensures
            manager@ == (ViewerView { show_triangler: true, angle: 0 }),
    {
        RenderingManager { show_triangler: true, angle: 0 }
    }

    /// Whether the triangle is shown.
    pub fn show_triangler(&self) -> (shown: bool)
        ensures
            shown == self@.show_triangler,
    {
        self.show_triangler
    }

    /// One frame of the triangle: turns it by the frame's horizontal drag
    /// and returns the angle to paint with.
    pub fn paint_triangler(&mut self, drag_motion_x: i64) -> (angle: i64)
        ensures
            angle == turned(old(self)@.angle, drag_motion_x as int),
            final(self)@ == (ViewerView { angle: angle as int, ..old(self)@ }),
    {
        let delta: i128 = if drag_motion_x >= 0 {
            (drag_motion_x / DRAG_DIVISOR) as i128
        } else {
            -((-(drag_motion_x as i128)) / (DRAG_DIVISOR as i128))
        };
        let sum: i128 = (self.angle as i128) + delta;
        let next: i64 = if sum > i64::MAX as i128 {
            i64::MAX
        } else if sum < i64::MIN as i128 {
            i64::MIN
        } else {
            sum as i64
        };
        self.angle = next;
        next
    }
}

} // verus!
