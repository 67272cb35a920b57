use vstd::prelude::*;

verus! {

/// The colour model the AVIF encoder works in.
#[derive(Clone, Copy, Debug, PartialEq, Eq, Structural)]
pub enum ColorSpace {
    YCbCr,
    Rgb,
}

/// Alpha quality, in quarter points, for a colour quality in whole points:
/// the lesser of `(q + 100) / 2` and `q + q / 4 + 2`, both taken exactly.
pub open spec fn alpha_quality_spec(q: int) -> int {
    let a = 2 * (q + 100);
    let b = 5 * q + 8;
    if a <= b { a } else { b }
}

/// Derives the alpha quality from the colour quality; the result is in quarter points.
pub fn alpha_quality_quarters(quality: u8) -> (r: u16)
    ensures
        r as int == alpha_quality_spec(quality as int),
{
    let a: u16 = 2 * (quality as u16 + 100);
    let b: u16 = 5 * quality as u16 + 8;
    if a <= b { a } else { b }
}

/// Everything the AVIF encoder is given besides the pixels.
#[derive(Clone, Copy, Debug, PartialEq, Eq, Structural)]
pub struct EncodeParams {
    /// Colour quality in whole points.
    pub quality: u8,
    /// Alpha quality in quarter points.
    pub alpha_quality_quarters: u16,
    pub speed: u8,
    pub premultiplied_alpha: bool,
    pub color_space: ColorSpace,
    /// Zero lets the encoder choose its own parallelism.
    pub threads: usize,
}

/// The tunable parameters of the service, read once per request.
#[derive(Clone, Debug)]
pub struct ConfigSnapshot {
    pub listen: String,
    pub upstream_base: String,
    /// Colour quality in whole points, 1 to 100.
    pub quality: u8,
    /// Encoder speed, 1 to 10.
    pub speed: u8,
}

impl ConfigSnapshot {
    /// The encode parameters of the default pipeline for this configuration.
    pub fn encode_params(&self) -> (p: EncodeParams)
        ensures
            p.quality == self.quality,
            p.alpha_quality_quarters as int == alpha_quality_spec(self.quality as int),
            p.speed == self.speed,
            !p.premultiplied_alpha,
            p.color_space == ColorSpace::YCbCr,
            p.threads == 0,
    {
        EncodeParams {
            quality: self.quality,
            alpha_quality_quarters: alpha_quality_quarters(self.quality),
            speed: self.speed,
            premultiplied_alpha: false,
            color_space: ColorSpace::YCbCr,
            threads: 0,
        }
    }
}

} // verus!
