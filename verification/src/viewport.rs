//! The zoom of the viewport.

use vstd::prelude::*;
use crate::geometry::clamp;

verus! {

/// The smallest scale, in thousandths: life size.
pub const MIN_SCALE: u32 = 1000;

/// The largest scale, in thousandths: twice life size.
pub const MAX_SCALE: u32 = 2000;

/// The scale that follows `scale` after the wheel turned by `delta_y`. One unit
/// of wheel movement is five thousandths of scale; turning up, which the host
/// reports as a negative movement, enlarges. The result stays between the
/// smallest and the largest scale.
pub open spec fn scrolled(scale: int, delta_y: int) -> int {
    clamp(scale - 5 * delta_y, MIN_SCALE as int, MAX_SCALE as int)
}

/// By how much each margin of the canvas is moved at `scale`, in thousandths of
/// a percent of the viewport: fifty percent for each whole unit of scale above
/// life size, which keeps the middle of the canvas in the middle.
pub open spec fn margin_at(scale: int) -> int {
    (scale - 1000) * 50
}

/// The zoom factor of the canvas, in thousandths. It changes how the canvas is
/// shown and no coordinate that is stored.
#[derive(Clone, Copy, Debug, PartialEq, Eq)]
pub struct Viewport {
    scale: u32,
}

impl View for Viewport {
    type V = int;

    closed spec fn view(&self) -> int {
        self.scale as int
    }
}

impl Viewport {
    /// The scale lies between the smallest and the largest.
    pub open spec fn wf(&self) -> bool {
        MIN_SCALE <= self@ <= MAX_SCALE
    }

    /// The viewport at life size.
    pub fn new() -> (viewport: Viewport)
        ensures
            viewport@ == MIN_SCALE,
            viewport.wf(),
    {
        Viewport { scale: MIN_SCALE }
    }

    /// Takes a wheel movement of `delta_y`.
    pub fn on_scroll(&mut self, delta_y: i64)
        ensures
            final(self)@ == scrolled(old(self)@, delta_y as int),
            final(self).wf(),
    {
        let raw: i128 = self.scale as i128 - 5 * (delta_y as i128);
        if raw < MIN_SCALE as i128 {
            self.scale = MIN_SCALE;
        } else if raw > MAX_SCALE as i128 {
            self.scale = MAX_SCALE;
        } else {
            self.scale = raw as u32;
        }
    }

    /// The scale, in thousandths.
    pub fn scale(&self) -> (scale: u32)
        ensures
            scale == self@,
    {
        self.scale
    }

    /// By how much each margin of the canvas is moved, in thousandths of a
    /// percent of the viewport.
    pub fn margin(&self) -> (margin: u32)
        requires
            self.wf(),
        ensures
            margin == margin_at(self@),
    {
        (self.scale - 1000) * 50
    }
}

} // verus!
