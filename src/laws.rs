use vstd::prelude::*;
use crate::decode::{decoded, failure_message, is_png, jpeg_samples_of, png_rgba_of, DecodeFailure, JpegLayout};
use crate::encode::alpha_quality_spec;
use crate::pixel::Rgba8;

verus! {

/// A PNG decodes to exactly width times height pixels, and those are the PNG decoder's
/// own RGBA pixels, so each alpha is the source's alpha.
pub proof fn png_decode_keeps_grid_and_alpha(data: Seq<u8>)
    requires
        is_png(data),
        decoded(data) is Ok,
    ensures
        ({
            let (w, h, px) = decoded(data)->Ok_0;
            &&& w > 0 && h > 0
            &&& px.len() == w as int * h as int
            &&& png_rgba_of(data) == Ok::<_, Seq<char>>((w, h, px))
        }),
{
}

/// A one- or three-channel JPEG decodes to fully opaque pixels.
pub proof fn jpeg_decode_is_opaque(data: Seq<u8>)
    requires
        !is_png(data),
        jpeg_samples_of(data) is Ok,
        jpeg_samples_of(data)->Ok_0.1 is Some,
        jpeg_samples_of(data)->Ok_0.1->Some_0.2 != JpegLayout::Cmyk,
        decoded(data) is Ok,
    ensures
        ({
            let (w, h, px) = decoded(data)->Ok_0;
            &&& px.len() == w as int * h as int
            &&& forall|i: int| 0 <= i < px.len() ==> #[trigger] px[i].a == 255
        }),
{
}

/// A four-channel (CMYK) JPEG always fails as unsupported, with no pixels, and the
/// reason given names CMYK as not supported.
pub proof fn cmyk_jpeg_is_refused(data: Seq<u8>)
    requires
        !is_png(data),
        jpeg_samples_of(data) is Ok,
        jpeg_samples_of(data)->Ok_0.1 is Some,
        jpeg_samples_of(data)->Ok_0.1->Some_0.2 == JpegLayout::Cmyk,
    ensures
        decoded(data) == Err::<(usize, usize, Seq<Rgba8>), _>(DecodeFailure::UnsupportedCmyk),
        failure_message(decoded(data)->Err_0) == "CMYK JPEG is not supported. Please convert to PNG first"@,
{
}

/// For a quality in 0..=100 the derived alpha quality lies between that quality and 100
/// (both scaled to quarter points).
pub proof fn alpha_quality_bounds(q: int)
    requires
        0 <= q <= 100,
    ensures
        4 * q <= alpha_quality_spec(q) <= 400,
{
}

} // verus!
