use vstd::prelude::*;

use crate::canvas::{
    blank_raster, lemma_blank_canvas_count, png_of, Canvas, CanvasView, EncodeError, Rgba,
};
use crate::stroke::{Point, Segment, StrokeTracker};

verus! {

/// Width of the emulated tablet's raster, in pixels.
pub const WIDTH: u32 = 500;

/// Height of the emulated tablet's raster, in pixels.
pub const HEIGHT: u32 = 100;

/// The emulated signature tablet: a raster, the stroke in progress, and the
/// "armed" flag that protocol clients read and write.
pub struct Tablet {
    /// Whether the tablet is armed (powered and ready, to a protocol client).
    pub state: bool,
    canvas: Canvas,
    tracker: StrokeTracker,
    primes_origin_on_clear: bool,
}

pub struct TabletView {
    pub state: bool,
    pub canvas: CanvasView,
    pub last: Option<Point>,
    pub primes_origin_on_clear: bool,
}

/// The point at which a cleared tablet may leave the next stroke's origin.
pub open spec fn origin() -> Point {
    Point { x: 0, y: 0 }
}

impl TabletView {
    pub open spec fn wf(self) -> bool {
        self.canvas.wf()
    }

    pub open spec fn point_count(self) -> nat {
        self.canvas.non_blank_count()
    }

    /// The state after a clear: a blank raster and no stroke in progress, or,
    /// where so configured, a stroke primed at the origin.
    pub open spec fn cleared(self) -> TabletView {
        TabletView {
            canvas: CanvasView {
                pixels: blank_raster((self.canvas.width * self.canvas.height) as nat),
                ..self.canvas
            },
            last: if self.primes_origin_on_clear {
                Some(origin())
            } else {
                None
            },
            ..self
        }
    }

    /// The state of a freshly constructed tablet.
    pub open spec fn is_fresh(self) -> bool {
        &&& self.wf()
        &&& !self.state
        &&& self.canvas.width == WIDTH
        &&& self.canvas.height == HEIGHT
        &&& self.canvas.is_blank()
        &&& self.last is None
        &&& self.primes_origin_on_clear
    }

    /// Does `r` hold what a PNG snapshot of this state returns?
    pub open spec fn is_snapshot(self, r: Result<Vec<u8>, EncodeError>) -> bool {
        match r {
            Ok(b) => png_of(self.canvas.pixels, self.canvas.width, self.canvas.height) == Some(
                b@,
            ),
            Err(_) => png_of(self.canvas.pixels, self.canvas.width, self.canvas.height) is None,
        }
    }
}

impl View for Tablet {
    type V = TabletView;

    closed spec fn view(&self) -> TabletView {
        TabletView {
            state: self.state,
            canvas: self.canvas@,
            last: self.tracker.last,
            primes_origin_on_clear: self.primes_origin_on_clear,
        }
    }
}

impl Tablet {
    /// A fresh tablet: blank 500 by 100 raster, not armed, no stroke in progress.
    pub fn default() -> (t: Tablet)
        ensures
            t@.is_fresh(),
    {
        Tablet {
            state: false,
            canvas: Canvas::blank(WIDTH, HEIGHT),
            tracker: StrokeTracker::idle(),
            primes_origin_on_clear: true,
        }
    }

    pub fn width(&self) -> (r: u32)
        ensures
            r == self@.canvas.width,
    {
        self.canvas.width()
    }

    pub fn height(&self) -> (r: u32)
        ensures
            r == self@.canvas.height,
    {
        self.canvas.height()
    }

    /// The raster's bytes: premultiplied RGBA, row by row.
    pub fn pixels(&self) -> (r: &Vec<u8>)
        ensures
            r@ == self@.canvas.pixels,
    {
        self.canvas.pixels()
    }

    pub fn is_armed(&self) -> (r: bool)
        ensures
            r == self@.state,
    {
        self.state
    }

    pub fn set_armed(&mut self, armed: bool)
        ensures
            final(self)@ == (TabletView { state: armed, ..old(self)@ }),
    {
        self.state = armed;
    }

    /// Whether `clear` leaves the next stroke primed at the origin, so that a
    /// sample taken without a `draw_start` joins the origin to it.
    pub fn set_primes_origin_on_clear(&mut self, primes: bool)
        ensures
            final(self)@ == (TabletView { primes_origin_on_clear: primes, ..old(self)@ }),
    {
        self.primes_origin_on_clear = primes;
    }

    /// Begins a stroke at `(x, y)`; nothing is drawn.
    pub fn draw_start(&mut self, x: i32, y: i32)
        ensures
            final(self)@ == (TabletView { last: Some(Point { x, y }), ..old(self)@ }),
    {
        self.tracker.start(Point { x, y });
    }

    /// Ends the stroke in progress; nothing is drawn.
    pub fn draw_end(&mut self)
        ensures
            final(self)@ == (TabletView { last: None, ..old(self)@ }),
    {
        self.tracker.end();
    }

    /// Samples the pointer at `(x, y)`. Where a stroke is in progress, the
    /// segment from its last sample to this one is handed to `render` with the
    /// raster's size and a copy of its bytes, and what `render` returns becomes
    /// the raster if it has the raster's length. The first sample of a stroke
    /// draws nothing.
    pub fn draw<F>(&mut self, x: i32, y: i32, color: Rgba, width: u32, render: F)
        where
            F: FnOnce(Segment, u32, u32, Vec<u8>) -> Vec<u8>,
        requires
            old(self)@.wf(),
            forall|s: Segment, w: u32, h: u32, v: Vec<u8>| render.requires((s, w, h, v)),
        ensures
            final(self)@.wf(),
            final(self)@.last == Some(Point { x, y }),
            final(self)@.state == old(self)@.state,
            final(self)@.primes_origin_on_clear == old(self)@.primes_origin_on_clear,
            final(self)@.canvas.width == old(self)@.canvas.width,
            final(self)@.canvas.height == old(self)@.canvas.height,
            old(self)@.last is None ==> final(self)@.canvas == old(self)@.canvas
                && final(self)@.point_count() == old(self)@.point_count(),
            old(self)@.last matches Some(l) ==> exists|input: Vec<u8>, out: Vec<u8>|
                {
                    &&& input@ == old(self)@.canvas.pixels
                    &&& render.ensures(
                        (
                            Segment { from: l, to: Point { x, y }, color, width },
                            old(self)@.canvas.width,
                            old(self)@.canvas.height,
                            input,
                        ),
                        out,
                    )
                    &&& final(self)@.canvas.pixels == if out@.len()
                        == old(self)@.canvas.pixels.len() {
                        out@
                    } else {
                        old(self)@.canvas.pixels
                    }
                },
    {
        let seg = self.tracker.sample(Point { x, y }, color, width);
        match seg {
            Some(s) => {
                let input = self.canvas.pixels().clone();
                assert(input@ =~= old(self)@.canvas.pixels);
                let out = render(s, self.canvas.width(), self.canvas.height(), input);
                let ghost out_view = out@;
                self.canvas.replace_pixels(out);
                assert(final(self)@.canvas.pixels == if out_view.len()
                    == old(self)@.canvas.pixels.len() {
                    out_view
                } else {
                    old(self)@.canvas.pixels
                });
            },
            None => {},
        }
    }

    /// Blanks the raster and resets the stroke in progress.
    pub fn clear(&mut self)
        requires
            old(self)@.wf(),
        ensures
            final(self)@ == old(self)@.cleared(),
            final(self)@.wf(),
            final(self)@.point_count() == 0,
    {
        self.canvas.fill_blank();
        if self.primes_origin_on_clear {
            self.tracker.start(Point { x: 0, y: 0 });
        } else {
            self.tracker.end();
        }
        assert(self@.canvas =~= old(self)@.cleared().canvas);
    }

    /// Number of pixels that are not opaque white.
    pub fn total_points(&self) -> (r: usize)
        requires
            self@.wf(),
        ensures
            r == self@.point_count(),
    {
        self.canvas.count_non_blank()
    }

    /// The raster encoded as PNG.
    pub fn to_png(&self) -> (r: Result<Vec<u8>, EncodeError>)
        requires
            self@.wf(),
        ensures
            self@.is_snapshot(r),
    {
        self.canvas.encode_png()
    }

    /// Puts the tablet back in the state of a freshly constructed one.
    pub fn reset(&mut self)
        ensures
            final(self)@.is_fresh(),
    {
        *self = Tablet::default();
    }
}

/// Whatever was drawn before, clearing leaves a well-formed, entirely blank
/// raster with no point counted.
pub proof fn lemma_cleared_is_blank(v: TabletView)
    requires
        v.wf(),
    ensures
        v.cleared().wf(),
        v.cleared().canvas.is_blank(),
        v.cleared().point_count() == 0,
{
    let (w, h) = (v.canvas.width as int, v.canvas.height as int);
    assert(4 * (w * h) == 4 * w * h) by (nonlinear_arith);
    lemma_blank_canvas_count(v.cleared().canvas);
}

/// Two snapshots of one state agree: both succeed with the same bytes, or
/// both fail.
pub proof fn lemma_snapshot_repeatable(
    v: TabletView,
    r1: Result<Vec<u8>, EncodeError>,
    r2: Result<Vec<u8>, EncodeError>,
)
    requires
        v.is_snapshot(r1),
        v.is_snapshot(r2),
    ensures
        r1 is Ok <==> r2 is Ok,
        r1 is Ok ==> r1->Ok_0@ == r2->Ok_0@,
{
}

/// Readers of one state count the same points; a reader that runs beside a
/// clear sees either the whole state before it or the whole state after it,
/// and so counts either the old number or zero.
pub proof fn lemma_readers_agree(v: TabletView, seen1: TabletView, seen2: TabletView)
    requires
        v.wf(),
        seen1 == v || seen1 == v.cleared(),
        seen2 == seen1,
    ensures
        seen1.point_count() == seen2.point_count(),
        seen1.point_count() == v.point_count() || seen1.point_count() == 0,
        seen1.canvas.pixels == v.canvas.pixels || seen1.canvas.is_blank(),
{
    lemma_cleared_is_blank(v);
}

} // verus!
