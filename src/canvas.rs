use vstd::prelude::*;

verus! {

/// The byte stored in every channel of a blank (opaque white) pixel.
pub const BLANK: u8 = 255;

/// One pixel as it is stored: premultiplied red, green, blue and alpha.
#[derive(Clone, Copy, Debug, PartialEq, Eq, Structural)]
pub struct Rgba {
    pub r: u8,
    pub g: u8,
    pub b: u8,
    pub a: u8,
}

/// Is the pixel with index `i` of the raster `s` opaque white?
pub open spec fn is_blank_at(s: Seq<u8>, i: int) -> bool {
    &&& s[4 * i] == BLANK
    &&& s[4 * i + 1] == BLANK
    &&& s[4 * i + 2] == BLANK
    &&& s[4 * i + 3] == BLANK
}

/// Number of non-blank pixels among the first `n` pixels of `s`.
pub open spec fn non_blank_prefix(s: Seq<u8>, n: nat) -> nat
    decreases n,
{
    if n == 0 {
        0
    } else {
        non_blank_prefix(s, (n - 1) as nat) + if is_blank_at(s, n - 1) {
            0nat
        } else {
            1nat
        }
    }
}

/// Number of non-blank pixels of the raster `s`.
pub open spec fn non_blank_count(s: Seq<u8>) -> nat {
    non_blank_prefix(s, s.len() / 4)
}

/// A raster of `n` pixels, every one of them blank.
pub open spec fn blank_raster(n: nat) -> Seq<u8> {
    Seq::new(4 * n, |i: int| BLANK)
}

/// PNG encoding of an RGBA raster of premultiplied pixels, or `None` where the
/// codec refuses it.
pub uninterp spec fn png_of(pixels: Seq<u8>, width: u32, height: u32) -> Option<Seq<u8>>;

/// Raised when the raster cannot be serialized.
#[derive(Clone, Debug, PartialEq, Eq)]
pub struct EncodeError {
    pub message: String,
}

#[verifier::external_type_specification]
#[verifier::external_body]
pub struct ExPngEncodingError(png::EncodingError);

/// Relies on tiny_skia::PixmapRef::from_bytes, which accepts the slice when both
/// sides are nonzero, `4 * width` fits an `i32` and the slice holds `4 * width * height`
/// bytes, and on PixmapRef::encode_png, which demultiplies and encodes through png
/// into a `Vec`, so that the outcome depends on the pixels and the size alone.
#[verifier::external_body]
fn encode_rgba_png(pixels: &Vec<u8>, width: u32, height: u32) -> (r: Result<Vec<u8>, png::EncodingError>)
    requires
        0 < width,
        0 < height,
        4 * width <= i32::MAX,
        pixels@.len() == 4 * width * height,
    ensures
        match r {
            Ok(b) => png_of(pixels@, width, height) == Some(b@),
            Err(_) => png_of(pixels@, width, height) is None,
        },
{
    tiny_skia::PixmapRef::from_bytes(pixels.as_slice(), width, height).unwrap().encode_png()
}

/// Relies on png::EncodingError's `Display`, for the text of the error.
#[verifier::external_body]
fn describe_png_error(e: &png::EncodingError) -> (r: String) {
    format!("{}", e)
}

/// A fixed-size grid of RGBA pixels, row by row, four bytes per pixel.
pub struct Canvas {
    width: u32,
    height: u32,
    pixels: Vec<u8>,
}

pub struct CanvasView {
    pub width: u32,
    pub height: u32,
    pub pixels: Seq<u8>,
}

impl CanvasView {
    pub open spec fn wf(self) -> bool {
        &&& 0 < self.width
        &&& 0 < self.height
        &&& 4 * self.width <= i32::MAX
        &&& self.width * self.height <= usize::MAX / 4
        &&& self.pixels.len() == 4 * self.width * self.height
    }

    pub open spec fn pixel_index(self, x: int, y: int) -> int {
        y * self.width + x
    }

    pub open spec fn in_bounds(self, x: int, y: int) -> bool {
        0 <= x < self.width && 0 <= y < self.height
    }

    pub open spec fn pixel(self, x: int, y: int) -> Rgba {
        let k = 4 * self.pixel_index(x, y);
        Rgba { r: self.pixels[k], g: self.pixels[k + 1], b: self.pixels[k + 2], a: self.pixels[k + 3] }
    }

    pub open spec fn is_blank(self) -> bool {
        self.pixels == blank_raster((self.width * self.height) as nat)
    }

    pub open spec fn non_blank_count(self) -> nat {
        non_blank_count(self.pixels)
    }

    /// The raster with pixel `(x, y)` set to `c`, or unchanged off the grid.
    pub open spec fn with_pixel(self, x: int, y: int, c: Rgba) -> CanvasView {
        if self.in_bounds(x, y) {
            let k = 4 * self.pixel_index(x, y);
            CanvasView {
                pixels: self.pixels.update(k, c.r).update(k + 1, c.g).update(k + 2, c.b).update(
                    k + 3,
                    c.a,
                ),
                ..self
            }
        } else {
            self
        }
    }
}

impl View for Canvas {
    type V = CanvasView;

    closed spec fn view(&self) -> CanvasView {
        CanvasView { width: self.width, height: self.height, pixels: self.pixels@ }
    }
}

/// A raster in which every pixel is blank has no non-blank pixel.
pub proof fn lemma_blank_prefix(s: Seq<u8>, n: nat)
    requires
        4 * n <= s.len(),
        forall|i: int| 0 <= i < 4 * n ==> s[i] == BLANK,
    ensures
        non_blank_prefix(s, n) == 0,
    decreases n,
{
    if n > 0 {
        lemma_blank_prefix(s, (n - 1) as nat);
    }
}

/// The non-blank count never exceeds the number of pixels counted.
pub proof fn lemma_prefix_bounded(s: Seq<u8>, n: nat)
    ensures
        non_blank_prefix(s, n) <= n,
    decreases n,
{
    if n > 0 {
        lemma_prefix_bounded(s, (n - 1) as nat);
    }
}

/// A blank canvas has no non-blank pixel.
pub proof fn lemma_blank_canvas_count(v: CanvasView)
    requires
        v.wf(),
        v.is_blank(),
    ensures
        v.non_blank_count() == 0,
{
    lemma_blank_prefix(v.pixels, v.pixels.len() / 4);
}

impl Canvas {
    pub open spec fn wf(&self) -> bool {
        self@.wf()
    }

    /// A blank canvas of `width` by `height` pixels, or `None` where the size
    /// is zero or too large to address.
    pub fn new(width: u32, height: u32) -> (r: Option<Canvas>)
        ensures
            r is Some <==> (0 < width && 0 < height && 4 * width <= i32::MAX && width * height
                <= usize::MAX / 4),
            r matches Some(c) ==> c.wf() && c@.width == width && c@.height == height
                && c@.is_blank(),
    {
        if width == 0 || height == 0 || width > 0x1fff_ffff {
            return None;
        }
        let w = width as usize;
        let h = height as usize;
        if w > usize::MAX / 4 / h {
            proof {
                assert(w * h > usize::MAX / 4) by (nonlinear_arith)
                    requires w > usize::MAX / 4 / h, h > 0;
            }
            return None;
        }
        proof {
            assert(w * h <= usize::MAX / 4) by (nonlinear_arith)
                requires w <= usize::MAX / 4 / h, h > 0;
        }
        Some(Canvas::blank(width, height))
    }

    /// A blank canvas of a size that is known to be addressable.
    pub fn blank(width: u32, height: u32) -> (c: Canvas)
        requires
            0 < width,
            0 < height,
            4 * width <= i32::MAX,
            width * height <= usize::MAX / 4,
        ensures
            c.wf(),
            c@.width == width,
            c@.height == height,
            c@.is_blank(),
    {
        let w = width as usize;
        let h = height as usize;
        proof {
            assert(4 * (w * h) == 4 * w * h) by (nonlinear_arith);
        }
        let n: usize = 4 * (w * h);
        let mut pixels: Vec<u8> = Vec::with_capacity(n);
        let mut i: usize = 0;
        while i < n
            invariant
                i <= n,
                pixels@ =~= Seq::new(i as nat, |k: int| BLANK),
            decreases n - i,
        {
            pixels.push(BLANK);
            i = i + 1;
        }
        let c = Canvas { width, height, pixels };
        assert(c@.pixels =~= blank_raster((width * height) as nat));
        c
    }

    pub fn width(&self) -> (r: u32)
        ensures
            r == self@.width,
    {
        self.width
    }

    pub fn height(&self) -> (r: u32)
        ensures
            r == self@.height,
    {
        self.height
    }

    /// The stored bytes, four per pixel, row by row.
    pub fn pixels(&self) -> (r: &Vec<u8>)
        ensures
            r@ == self@.pixels,
    {
        &self.pixels
    }

    /// Sets every pixel to opaque white.
    pub fn fill_blank(&mut self)
        requires
            old(self).wf(),
        ensures
            final(self).wf(),
            final(self)@.width == old(self)@.width,
            final(self)@.height == old(self)@.height,
            final(self)@.is_blank(),
            final(self)@.non_blank_count() == 0,
    {
        let n = self.pixels.len();
        let mut i: usize = 0;
        while i < n
            invariant
                i <= n,
                n == self.pixels@.len(),
                self.width == old(self).width,
                self.height == old(self).height,
                self.pixels@.len() == old(self).pixels@.len(),
                forall|k: int| 0 <= k < i ==> self.pixels@[k] == BLANK,
            decreases n - i,
        {
            self.pixels.set(i, BLANK);
            i = i + 1;
        }
        proof {
            let (w, h) = (self.width as int, self.height as int);
            assert(4 * (w * h) == 4 * w * h) by (nonlinear_arith);
        }
        assert(self@.pixels =~= blank_raster((self.width * self.height) as nat));
        proof {
            lemma_blank_canvas_count(self@);
        }
    }

    /// The pixel at `(x, y)`.
    pub fn pixel(&self, x: u32, y: u32) -> (r: Rgba)
        requires
            self.wf(),
            self@.in_bounds(x as int, y as int),
        ensures
            r == self@.pixel(x as int, y as int),
    {
        let k = self.byte_index(x, y);
        Rgba { r: self.pixels[k], g: self.pixels[k + 1], b: self.pixels[k + 2], a: self.pixels[k + 3] }
    }

    fn byte_index(&self, x: u32, y: u32) -> (k: usize)
        requires
            self.wf(),
            self@.in_bounds(x as int, y as int),
        ensures
            k == 4 * self@.pixel_index(x as int, y as int),
            k + 3 < self@.pixels.len(),
    {
        let w = self.width as usize;
        let h = self.height as usize;
        let xx = x as usize;
        let yy = y as usize;
        proof {
            assert(yy * w + xx < w * h) by (nonlinear_arith)
                requires xx < w, yy < h;
            assert(w * h <= usize::MAX / 4);
            assert(4 * (yy * w + xx) + 3 < 4 * w * h) by (nonlinear_arith)
                requires yy * w + xx < w * h;
        }
        4 * (yy * w + xx)
    }

    /// Writes pixel `(x, y)`; a coordinate off the grid leaves the canvas as it is.
    pub fn set_pixel(&mut self, x: i64, y: i64, c: Rgba)
        requires
            old(self).wf(),
        ensures
            final(self).wf(),
            final(self)@ == old(self)@.with_pixel(x as int, y as int, c),
    {
        if x < 0 || y < 0 || x >= self.width as i64 || y >= self.height as i64 {
            return;
        }
        let k = self.byte_index(x as u32, y as u32);
        self.pixels.set(k, c.r);
        self.pixels.set(k + 1, c.g);
        self.pixels.set(k + 2, c.b);
        self.pixels.set(k + 3, c.a);
        assert(self@.pixels =~= old(self)@.with_pixel(x as int, y as int, c).pixels);
    }

    /// Replaces the raster by `pixels` where it has the canvas's size; returns
    /// whether it did.
    pub fn replace_pixels(&mut self, pixels: Vec<u8>) -> (r: bool)
        requires
            old(self).wf(),
        ensures
            final(self).wf(),
            r == (pixels@.len() == old(self)@.pixels.len()),
            final(self)@ == (if r {
                CanvasView { pixels: pixels@, ..old(self)@ }
            } else {
                old(self)@
            }),
    {
        if pixels.len() == self.pixels.len() {
            self.pixels = pixels;
            true
        } else {
            false
        }
    }

    /// Number of pixels that are not opaque white.
    pub fn count_non_blank(&self) -> (r: usize)
        requires
            self.wf(),
        ensures
            r == self@.non_blank_count(),
    {
        let len = self.pixels.len();
        let n = len / 4;
        let mut count: usize = 0;
        let mut i: usize = 0;
        while i < n
            invariant
                self.wf(),
                len == self.pixels@.len(),
                n == len / 4,
                i <= n,
                count == non_blank_prefix(self.pixels@, i as nat),
            decreases n - i,
        {
            proof {
                lemma_prefix_bounded(self.pixels@, i as nat);
            }
            assert(4 * i + 3 < self.pixels@.len()) by (nonlinear_arith)
                requires i < n, n == len / 4, len == self.pixels@.len();
            let k = 4 * i;
            let blank = self.pixels[k] == BLANK && self.pixels[k + 1] == BLANK
                && self.pixels[k + 2] == BLANK && self.pixels[k + 3] == BLANK;
            if !blank {
                count = count + 1;
            }
            i = i + 1;
        }
        count
    }

    /// The raster encoded as PNG.
    pub fn encode_png(&self) -> (r: Result<Vec<u8>, EncodeError>)
        requires
            self.wf(),
        ensures
            match r {
                Ok(b) => png_of(self@.pixels, self@.width, self@.height) == Some(b@),
                Err(_) => png_of(self@.pixels, self@.width, self@.height) is None,
            },
    {
        match encode_rgba_png(&self.pixels, self.width, self.height) {
            Ok(b) => Ok(b),
            Err(e) => Err(EncodeError { message: describe_png_error(&e) }),
        }
    }
}

} // verus!
