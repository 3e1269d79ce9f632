use vstd::prelude::*;

use crate::canvas::Rgba;

verus! {

/// A pointer position in canvas pixels; it may lie off the canvas.
#[derive(Clone, Copy, Debug, PartialEq, Eq, Structural)]
pub struct Point {
    pub x: i32,
    pub y: i32,
}

/// One straight piece of a stroke, with the ink it is drawn in.
#[derive(Clone, Copy, Debug, PartialEq, Eq, Structural)]
pub struct Segment {
    pub from: Point,
    pub to: Point,
    pub color: Rgba,
    pub width: u32,
}

/// Where the stroke in progress was last sampled; `None` while no stroke is
/// in progress.
#[derive(Clone, Copy, Debug, PartialEq, Eq, Structural)]
pub struct StrokeTracker {
    pub last: Option<Point>,
}

impl StrokeTracker {
    pub fn idle() -> (t: StrokeTracker)
        ensures
            t.last is None,
    {
        StrokeTracker { last: None }
    }

    /// Begins a stroke at `p`; nothing is drawn.
    pub fn start(&mut self, p: Point)
        ensures
            final(self).last == Some(p),
    {
        self.last = Some(p);
    }

    /// Records the sample `p` and returns the segment that joins it to the
    /// previous sample of the same stroke, if there is one.
    pub fn sample(&mut self, p: Point, color: Rgba, width: u32) -> (r: Option<Segment>)
        ensures
            final(self).last == Some(p),
            r == (match old(self).last {
                Some(l) => Some(Segment { from: l, to: p, color, width }),
                None => None::<Segment>,
            }),
    {
        let r = match self.last {
            Some(l) => Some(Segment { from: l, to: p, color, width }),
            None => None,
        };
        self.last = Some(p);
        r
    }

    /// Ends the stroke in progress.
    pub fn end(&mut self)
        ensures
            final(self).last is None,
    {
        self.last = None;
    }
}

} // verus!
