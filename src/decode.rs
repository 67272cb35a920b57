use vstd::prelude::*;
use crate::pixel::{PixelBuffer, Rgba8};

verus! {

/// The sample layout that a JPEG stream declares.
#[derive(Clone, Copy, Debug, PartialEq, Eq, Structural)]
pub enum JpegLayout {
    Luma,
    Rgb,
    Cmyk,
}

/// What the JPEG decoder reports: its samples, and the header if one was read.
pub struct JpegSamples {
    pub samples: Vec<u8>,
    pub info: Option<(u16, u16, JpegLayout)>,
}

/// Why bytes could not be turned into a pixel buffer.
#[derive(Clone, Debug, PartialEq, Eq)]
pub enum DecodeError {
    /// The PNG decoder refused the stream; its reason is kept.
    Png(String),
    /// The JPEG decoder refused the stream; its reason is kept.
    Jpeg(String),
    /// The JPEG decoder gave samples but no header.
    MissingJpegInfo,
    /// A four-channel (CMYK) JPEG, which is not handled.
    UnsupportedCmyk,
    /// A width or height of zero.
    ZeroDimension,
    /// The pixel count disagrees with width times height.
    SizeMismatch,
}

/// The mathematical form of a decode failure.
pub enum DecodeFailure {
    Png(Seq<char>),
    Jpeg(Seq<char>),
    MissingJpegInfo,
    UnsupportedCmyk,
    ZeroDimension,
    SizeMismatch,
}

impl View for DecodeError {
    type V = DecodeFailure;

    open spec fn view(&self) -> DecodeFailure {
        match self {
            DecodeError::Png(s) => DecodeFailure::Png(s@),
            DecodeError::Jpeg(s) => DecodeFailure::Jpeg(s@),
            DecodeError::MissingJpegInfo => DecodeFailure::MissingJpegInfo,
            DecodeError::UnsupportedCmyk => DecodeFailure::UnsupportedCmyk,
            DecodeError::ZeroDimension => DecodeFailure::ZeroDimension,
            DecodeError::SizeMismatch => DecodeFailure::SizeMismatch,
        }
    }
}

/// The human-readable reason for a decode failure.
pub open spec fn failure_message(f: DecodeFailure) -> Seq<char> {
    match f {
        DecodeFailure::Png(s) => s,
        DecodeFailure::Jpeg(s) => s,
        DecodeFailure::MissingJpegInfo => "Error reading JPEG info"@,
        DecodeFailure::UnsupportedCmyk => "CMYK JPEG is not supported. Please convert to PNG first"@,
        DecodeFailure::ZeroDimension => "image has a zero dimension"@,
        DecodeFailure::SizeMismatch => "pixel count does not match image size"@,
    }
}

impl DecodeError {
    /// A human-readable reason.
    pub fn message(&self) -> (r: String)
        ensures
            r@ == failure_message(self@),
    {
        match self {
            DecodeError::Png(s) => s.clone(),
            DecodeError::Jpeg(s) => s.clone(),
            DecodeError::MissingJpegInfo => String::from_str("Error reading JPEG info"),
            DecodeError::UnsupportedCmyk => String::from_str(
                "CMYK JPEG is not supported. Please convert to PNG first",
            ),
            DecodeError::ZeroDimension => String::from_str("image has a zero dimension"),
            DecodeError::SizeMismatch => String::from_str("pixel count does not match image size"),
        }
    }
}

/// What lodepng's 32-bit decode makes of the bytes: width, height and pixels, or its reason.
pub uninterp spec fn png_rgba_of(data: Seq<u8>) -> Result<(usize, usize, Seq<Rgba8>), Seq<char>>;

/// What jpeg-decoder makes of the bytes: samples and header, or its reason.
pub uninterp spec fn jpeg_samples_of(data: Seq<u8>) -> Result<(Seq<u8>, Option<(u16, u16, JpegLayout)>), Seq<char>>;

/// Relies on lodepng::decode32: the result depends on the bytes alone.
#[verifier::external_body]
fn png_decode32(data: &[u8]) -> (r: Result<(usize, usize, Vec<Rgba8>), String>)
    ensures
        match r {
            Ok((w, h, px)) => png_rgba_of(data@) == Ok::<_, Seq<char>>((w, h, px@)),
            Err(e) => png_rgba_of(data@) == Err::<(usize, usize, Seq<Rgba8>), _>(e@),
        },
{
    match lodepng::decode32(data) {
        Ok(img) => Ok((
            img.width,
            img.height,
            img.buffer.iter().map(|p| Rgba8 { r: p.r, g: p.g, b: p.b, a: p.a }).collect(),
        )),
        Err(e) => Err(e.to_string()),
    }
}

/// Relies on jpeg_decoder::Decoder::new, decode and info: the result depends on the bytes alone.
/// `info` is asked only after `decode` succeeded, which rejects any component count but 1, 3
/// and 4, so its layout match cannot panic.
#[verifier::external_body]
fn jpeg_decode(data: &[u8]) -> (r: Result<JpegSamples, String>)
    ensures
        match r {
            Ok(s) => jpeg_samples_of(data@) == Ok::<_, Seq<char>>((s.samples@, s.info)),
            Err(e) => jpeg_samples_of(data@) == Err::<(Seq<u8>, Option<(u16, u16, JpegLayout)>), _>(e@),
        },
{
    let mut decoder = jpeg_decoder::Decoder::new(data);
    match decoder.decode() {
        Ok(samples) => {
            let info = decoder.info().map(|i| (i.width, i.height, match i.pixel_format {
                jpeg_decoder::PixelFormat::L8 => JpegLayout::Luma,
                jpeg_decoder::PixelFormat::RGB24 => JpegLayout::Rgb,
                jpeg_decoder::PixelFormat::CMYK32 => JpegLayout::Cmyk,
            }));
            Ok(JpegSamples { samples, info })
        },
        Err(e) => Err(e.to_string()),
    }
}

/// The PNG signature's first four bytes.
pub open spec fn is_png(data: Seq<u8>) -> bool {
    &&& data.len() >= 4
    &&& data[0] == 0x89u8
    &&& data[1] == 0x50u8
    &&& data[2] == 0x4eu8
    &&& data[3] == 0x47u8
}

/// Luminance samples, each replicated into red, green and blue, fully opaque.
pub open spec fn luma_pixels(s: Seq<u8>) -> Seq<Rgba8> {
    Seq::new(s.len(), |i: int| Rgba8 { r: s[i], g: s[i], b: s[i], a: 255 })
}

/// RGB sample triples, fully opaque; a trailing partial triple is ignored.
pub open spec fn rgb_pixels(s: Seq<u8>) -> Seq<Rgba8> {
    Seq::new(s.len() / 3, |i: int| Rgba8 { r: s[3 * i], g: s[3 * i + 1], b: s[3 * i + 2], a: 255 })
}

/// A decoded grid is accepted when both dimensions are nonzero and it has width times height pixels.
pub open spec fn checked_grid(w: usize, h: usize, px: Seq<Rgba8>) -> Result<(usize, usize, Seq<Rgba8>), DecodeFailure> {
    if w == 0 || h == 0 {
        Err(DecodeFailure::ZeroDimension)
    } else if px.len() != w as int * h as int {
        Err(DecodeFailure::SizeMismatch)
    } else {
        Ok((w, h, px))
    }
}

/// What decoding the bytes yields: PNG when the signature is there, else JPEG.
pub open spec fn decoded(data: Seq<u8>) -> Result<(usize, usize, Seq<Rgba8>), DecodeFailure> {
    if is_png(data) {
        match png_rgba_of(data) {
            Ok((w, h, px)) => checked_grid(w, h, px),
            Err(e) => Err(DecodeFailure::Png(e)),
        }
    } else {
        match jpeg_samples_of(data) {
            Err(e) => Err(DecodeFailure::Jpeg(e)),
            Ok((_, None)) => Err(DecodeFailure::MissingJpegInfo),
            Ok((s, Some((w, h, layout)))) => match layout {
                JpegLayout::Cmyk => Err(DecodeFailure::UnsupportedCmyk),
                JpegLayout::Luma => checked_grid(w as usize, h as usize, luma_pixels(s)),
                JpegLayout::Rgb => checked_grid(w as usize, h as usize, rgb_pixels(s)),
            },
        }
    }
}

/// Whether the bytes start with the PNG signature.
pub fn sniff_png(data: &[u8]) -> (r: bool)
    ensures
        r == is_png(data@),
{
    data.len() >= 4 && data[0] == 0x89u8 && data[1] == 0x50u8 && data[2] == 0x4eu8 && data[3] == 0x47u8
}

/// Expands luminance samples to opaque grey pixels.
pub fn expand_luma(s: &[u8]) -> (r: Vec<Rgba8>)
    ensures
        r@ == luma_pixels(s@),
{
    let mut out: Vec<Rgba8> = Vec::new();
    let mut i: usize = 0;
    while i < s.len()
        invariant
            i <= s@.len(),
            out@ == luma_pixels(s@).take(i as int),
        decreases s@.len() - i,
    {
        let g = s[i];
        out.push(Rgba8 { r: g, g: g, b: g, a: 255 });
        i = i + 1;
        assert(out@ =~= luma_pixels(s@).take(i as int));
    }
    assert(out@ =~= luma_pixels(s@));
    out
}

/// Groups RGB samples into opaque pixels.
pub fn expand_rgb(s: &[u8]) -> (r: Vec<Rgba8>)
    ensures
        r@ == rgb_pixels(s@),
{
    let slen: usize = s.len();
    let n: usize = slen / 3;
    let mut out: Vec<Rgba8> = Vec::new();
    let mut i: usize = 0;
    while i < n
        invariant
            slen == s@.len(),
            n == s@.len() / 3,
            i <= n,
            out@ == rgb_pixels(s@).take(i as int),
        decreases n - i,
    {
        assert(3 * i + 2 < s@.len()) by (nonlinear_arith)
            requires i < n, n == s@.len() / 3;
        let px = Rgba8 { r: s[3 * i], g: s[3 * i + 1], b: s[3 * i + 2], a: 255 };
        out.push(px);
        i = i + 1;
        assert(out@ =~= rgb_pixels(s@).take(i as int));
    }
    assert(out@ =~= rgb_pixels(s@));
    out
}

/// Accepts a grid only with nonzero dimensions and width times height pixels.
pub fn check_grid(w: usize, h: usize, px: Vec<Rgba8>) -> (r: Result<PixelBuffer, DecodeError>)
    ensures
        match r {
            Ok(buf) => buf.wf() && checked_grid(w, h, px@) == Ok::<_, DecodeFailure>((buf.width, buf.height, buf.pixels@)),
            Err(e) => checked_grid(w, h, px@) == Err::<(usize, usize, Seq<Rgba8>), _>(e@),
        },
{
    if w == 0 || h == 0 {
        return Err(DecodeError::ZeroDimension);
    }
    let len = px.len();
    match w.checked_mul(h) {
        Some(n) => {
            if len == n {
                Ok(PixelBuffer { width: w, height: h, pixels: px })
            } else {
                Err(DecodeError::SizeMismatch)
            }
        },
        None => {
            Err(DecodeError::SizeMismatch)
        },
    }
}

/// Decodes PNG or JPEG bytes into an RGBA pixel buffer.
pub fn decode(data: &[u8]) -> (r: Result<PixelBuffer, DecodeError>)
    ensures
        match r {
            Ok(buf) => buf.wf() && decoded(data@) == Ok::<_, DecodeFailure>((buf.width, buf.height, buf.pixels@)),
            Err(e) => decoded(data@) == Err::<(usize, usize, Seq<Rgba8>), _>(e@),
        },
{
    if sniff_png(data) {
        match png_decode32(data) {
            Ok((w, h, px)) => check_grid(w, h, px),
            Err(e) => Err(DecodeError::Png(e)),
        }
    } else {
        match jpeg_decode(data) {
            Err(e) => Err(DecodeError::Jpeg(e)),
            Ok(js) => match js.info {
                None => Err(DecodeError::MissingJpegInfo),
                Some((w, h, layout)) => match layout {
                    JpegLayout::Cmyk => Err(DecodeError::UnsupportedCmyk),
                    JpegLayout::Luma => check_grid(w as usize, h as usize, expand_luma(js.samples.as_slice())),
                    JpegLayout::Rgb => check_grid(w as usize, h as usize, expand_rgb(js.samples.as_slice())),
                },
            },
        }
    }
}

} // verus!
