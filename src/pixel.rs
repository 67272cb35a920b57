use vstd::prelude::*;

verus! {

/// One pixel: red, green, blue and alpha, eight bits each.
#[derive(Clone, Copy, Debug, PartialEq, Eq, Structural)]
pub struct Rgba8 {
    pub r: u8,
    pub g: u8,
    pub b: u8,
    pub a: u8,
}

impl Rgba8 {
    pub fn new(r: u8, g: u8, b: u8, a: u8) -> (px: Rgba8)
        ensures
            px == (Rgba8 { r, g, b, a }),
    {
        Rgba8 { r, g, b, a }
    }
}

/// A channel scaled by an alpha value, rounded down.
pub open spec fn scale_channel(c: u8, a: u8) -> u8 {
    (c as int * a as int / 255) as u8
}

/// A pixel with its colour channels premultiplied by its own alpha.
pub open spec fn premultiplied(px: Rgba8) -> Rgba8 {
    Rgba8 {
        r: scale_channel(px.r, px.a),
        g: scale_channel(px.g, px.a),
        b: scale_channel(px.b, px.a),
        a: px.a,
    }
}

/// A row-major grid of pixels, top row first.
#[derive(Clone, Debug)]
pub struct PixelBuffer {
    pub width: usize,
    pub height: usize,
    pub pixels: Vec<Rgba8>,
}

impl PixelBuffer {
    /// Both dimensions are nonzero and there is exactly one pixel per cell.
    pub open spec fn wf(&self) -> bool {
        &&& self.width > 0
        &&& self.height > 0
        &&& self.pixels@.len() == self.width as int * self.height as int
    }

    pub fn width(&self) -> (r: usize)
        ensures
            r == self.width,
    {
        self.width
    }

    pub fn height(&self) -> (r: usize)
        ensures
            r == self.height,
    {
        self.height
    }

    pub fn pixels(&self) -> (r: &Vec<Rgba8>)
        ensures
            r@ == self.pixels@,
    {
        &self.pixels
    }
}

/// Scales one channel by alpha: `floor(c * a / 255)`.
pub fn scale(c: u8, a: u8) -> (r: u8)
    ensures
        r == scale_channel(c, a),
{
    assert(c as int * a as int <= 255 * 255) by (nonlinear_arith)
        requires c <= 255, a <= 255;
    assert(c as int * a as int / 255 <= 255) by (nonlinear_arith)
        requires c as int * a as int <= 255 * 255;
    ((c as u16 * a as u16) / 255) as u8
}

/// Premultiplies one pixel's colour channels by its alpha; alpha is kept.
pub fn premultiply_pixel(px: Rgba8) -> (r: Rgba8)
    ensures
        r == premultiplied(px),
{
    Rgba8 { r: scale(px.r, px.a), g: scale(px.g, px.a), b: scale(px.b, px.a), a: px.a }
}

/// Premultiplies every pixel of the buffer in place; dimensions are kept.
pub fn premultiply(buf: &mut PixelBuffer)
    ensures
        final(buf).width == old(buf).width,
        final(buf).height == old(buf).height,
        final(buf).pixels@ == old(buf).pixels@.map_values(|px: Rgba8| premultiplied(px)),
{
    let n = buf.pixels.len();
    let mut i: usize = 0;
    while i < n
        invariant
            0 <= i <= n,
            n == old(buf).pixels@.len(),
            buf.width == old(buf).width,
            buf.height == old(buf).height,
            buf.pixels@.len() == n,
            forall|j: int| 0 <= j < i ==> buf.pixels@[j] == premultiplied(old(buf).pixels@[j]),
            forall|j: int| i <= j < n ==> buf.pixels@[j] == old(buf).pixels@[j],
        decreases n - i,
    {
        let px = premultiply_pixel(buf.pixels[i]);
        buf.pixels.set(i, px);
        i = i + 1;
    }
    assert(buf.pixels@ =~= old(buf).pixels@.map_values(|px: Rgba8| premultiplied(px)));
}

} // verus!
