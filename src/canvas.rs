use vstd::prelude::*;

verus! {

/// Width of the drawing surface, in pixels.
pub const WIDTH: usize = 400;

/// Height of the drawing surface, in pixels.
pub const HEIGHT: usize = 400;

/// Number of pixels on the drawing surface.
pub const PIXELS: usize = 160000;

/// Bytes per pixel of an RGB raster (no alpha).
pub const CHANNELS: usize = 3;

/// Number of bytes of an RGB raster of the drawing surface.
pub const RASTER_BYTES: usize = 480000;

/// Row-major offset of pixel `(x, y)`.
pub open spec fn pixel_index(x: int, y: int) -> int {
    x + y * WIDTH as int
}

/// Whether `(x, y)` lies on the drawing surface.
pub open spec fn in_bounds(x: int, y: int) -> bool {
    0 <= x < WIDTH as int && 0 <= y < HEIGHT as int
}

/// `pad` with pixel `(x, y)` overwritten by `n`.
pub open spec fn painted_pad(pad: Seq<u8>, x: int, y: int, n: u8) -> Seq<u8> {
    pad.update(pixel_index(x, y), n)
}

/// The RGB raster `color` with the three channels of pixel `(x, y)` overwritten by `n`.
pub open spec fn painted_raster(color: Seq<u8>, x: int, y: int, n: u8) -> Seq<u8> {
    let o = CHANNELS * pixel_index(x, y);
    color.update(o, n).update(o + 1, n).update(o + 2, n)
}

/// A fixed-size grayscale image, one intensity byte per pixel, row-major.
pub struct DrawPad {
    buffer: Vec<u8>,
}

impl View for DrawPad {
    type V = Seq<u8>;

    closed spec fn view(&self) -> Seq<u8> {
        self.buffer@
    }
}

impl DrawPad {
    /// The pad always holds exactly one byte per pixel.
    pub open spec fn wf(&self) -> bool {
        self@.len() == PIXELS
    }

    /// Intensity stored at `(x, y)`.
    pub open spec fn spec_at(&self, x: int, y: int) -> u8 {
        self@[pixel_index(x, y)]
    }

    /// A blank pad: every pixel has intensity zero.
    pub fn new() -> (r: DrawPad)
        ensures
            r.wf(),
            forall|i: int| 0 <= i < PIXELS ==> #[trigger] r@[i] == 0u8,
    {
        DrawPad { buffer: vec![0u8; PIXELS] }
    }

    /// Intensity stored at `(x, y)`.
    pub fn get(&self, x: usize, y: usize) -> (r: u8)
        requires
            self.wf(),
            in_bounds(x as int, y as int),
        ensures
            r == self.spec_at(x as int, y as int),
    {
        self.buffer[x + y * WIDTH]
    }

    /// The intensities, row-major.
    pub fn samples(&self) -> (r: &[u8])
        ensures
            r@ == self@,
    {
        self.buffer.as_slice()
    }
}

/// A black RGB raster of the drawing surface.
pub fn new_display_raster() -> (r: Vec<u8>)
    ensures
        r@.len() == RASTER_BYTES,
        forall|i: int| 0 <= i < RASTER_BYTES ==> #[trigger] r@[i] == 0u8,
{
    vec![0u8; RASTER_BYTES]
}

/// Paints intensity `n` at `pos`: the pad's pixel is overwritten, and the three
/// channels of the same pixel of the display raster `color` take the same value.
pub fn write_drawpad_and_texture(grayscale: &mut DrawPad, color: &mut [u8], n: u8, pos: (i32, i32))
    requires
        old(grayscale).wf(),
        old(color)@.len() == RASTER_BYTES,
        in_bounds(pos.0 as int, pos.1 as int),
    ensures
        final(grayscale).wf(),
        final(grayscale)@ == painted_pad(old(grayscale)@, pos.0 as int, pos.1 as int, n),
        final(color)@ == painted_raster(old(color)@, pos.0 as int, pos.1 as int, n),
{
    let x = pos.0 as usize;
    let y = pos.1 as usize;
    let index: usize = x + y * WIDTH;
    grayscale.buffer.set(index, n);
    assert(y * (WIDTH * CHANNELS) == CHANNELS * (y * WIDTH)) by (nonlinear_arith);
    let offset: usize = x * CHANNELS + y * (WIDTH * CHANNELS);
    color[offset] = n;
    color[offset + 1] = n;
    color[offset + 2] = n;
}

/// Painting `n` at an on-surface pixel and then reading that pixel gives `n`, and
/// the three display channels of that pixel are `n`; every other pixel of the pad
/// keeps its intensity.
pub proof fn lemma_paint_then_read(pad: Seq<u8>, color: Seq<u8>, x: int, y: int, n: u8)
    requires
        pad.len() == PIXELS,
        color.len() == RASTER_BYTES,
        in_bounds(x, y),
    ensures
        painted_pad(pad, x, y, n).len() == PIXELS,
        painted_pad(pad, x, y, n)[pixel_index(x, y)] == n,
        painted_raster(color, x, y, n).len() == RASTER_BYTES,
        painted_raster(color, x, y, n)[CHANNELS * pixel_index(x, y)] == n,
        painted_raster(color, x, y, n)[CHANNELS * pixel_index(x, y) + 1] == n,
        painted_raster(color, x, y, n)[CHANNELS * pixel_index(x, y) + 2] == n,
        forall|i: int|
            0 <= i < PIXELS && i != pixel_index(x, y) ==> #[trigger] painted_pad(pad, x, y, n)[i]
                == pad[i],
{
}

} // verus!
