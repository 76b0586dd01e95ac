//! The quantization stage: reduce a full-color buffer to a bounded palette
//! through the external quantizer, then reconcile its palette + index
//! representation back into a dense RGBA buffer.

use vstd::prelude::*;
use vstd::set_lib::lemma_len_subset;

use crate::error::{CompressError, CompressResult};
use crate::utils::{color_count, expected_len, pixels_of, PixelBuffer};

verus! {

#[verifier::external_type_specification]
#[verifier::external_body]
pub struct ExAttributes(imagequant::Attributes);

#[verifier::external_type_specification]
#[verifier::external_body]
pub struct ExImage<'a>(imagequant::Image<'a>);

#[verifier::external_type_specification]
#[verifier::external_body]
pub struct ExQuantizationResult(imagequant::QuantizationResult);

/// Relies on imagequant's `Attributes::new`: a fresh quantizer
/// configuration with its documented defaults.
#[verifier::external_body]
fn liq_new() -> imagequant::Attributes {
    imagequant::Attributes::new()
}

/// Relies on imagequant's `Attributes::set_quality`: it accepts exactly
/// the pairs with `minimum <= target <= 100` and rejects the rest with a
/// range error, reported here under the "Quality error" context.
#[verifier::external_body]
fn liq_set_quality(attr: &mut imagequant::Attributes, minimum: u8, target: u8) -> (r: Result<
    (),
    String,
>)
    ensures
        r is Ok <==> (minimum <= target && target <= 100),
        r matches Err(m) ==> ("Quality error: "@).is_prefix_of(m@),
{
    attr.set_quality(minimum, target).map_err(|e| format!("Quality error: {}", e))
}

/// Relies on imagequant's `Attributes::set_speed`: it accepts exactly the
/// efforts 1-10 and rejects the rest with a range error, reported here
/// under the "Speed error" context.
#[verifier::external_body]
fn liq_set_speed(attr: &mut imagequant::Attributes, value: i32) -> (r: Result<(), String>)
    ensures
        r is Ok <==> 1 <= value <= 10,
        r matches Err(m) ==> ("Speed error: "@).is_prefix_of(m@),
{
    attr.set_speed(value).map_err(|e| format!("Speed error: {}", e))
}

/// Relies on imagequant's `Attributes::set_max_colors`: it accepts exactly
/// the palette bounds 2-256 and rejects the rest with a range error,
/// reported here under the "Colors error" context.
#[verifier::external_body]
fn liq_set_max_colors(attr: &mut imagequant::Attributes, colors: u32) -> (r: Result<(), String>)
    ensures
        r is Ok <==> 2 <= colors <= 256,
        r matches Err(m) ==> ("Colors error: "@).is_prefix_of(m@),
{
    attr.set_max_colors(colors).map_err(|e| format!("Colors error: {}", e))
}

/// Relies on imagequant's `Attributes::new_image`: it builds the
/// quantizer's image from owned RGBA samples, or reports a size error. The
/// samples convert tuple-for-tuple, and the declared gamma is 1.0, the
/// fixed square-pixel/no-correction policy of this pipeline. A failure is
/// reported under the "Image error" context.
#[verifier::external_body]
fn liq_new_image(
    attr: &imagequant::Attributes,
    pixels: Vec<(u8, u8, u8, u8)>,
    width: usize,
    height: usize,
) -> (r: Result<imagequant::Image<'static>, String>)
    ensures
        r matches Err(m) ==> ("Image error: "@).is_prefix_of(m@),
{
    let samples: Vec<rgb::RGBA<u8>> = pixels.iter().map(
        |p| rgb::RGBA::new(p.0, p.1, p.2, p.3),
    ).collect();
    attr.new_image(samples, width, height, 1u8.into()).map_err(|e| format!("Image error: {}", e))
}

/// Relies on imagequant's `Attributes::quantize`: it computes a palette
/// for the image, or reports why it could not under the "Quantize error"
/// context.
#[verifier::external_body]
fn liq_quantize(attr: &imagequant::Attributes, image: &mut imagequant::Image<'static>) -> (r:
    Result<imagequant::QuantizationResult, String>)
    ensures
        r matches Err(m) ==> ("Quantize error: "@).is_prefix_of(m@),
{
    attr.quantize(image).map_err(|e| format!("Quantize error: {}", e))
}

/// Relies on imagequant's `QuantizationResult::remapped`: it returns the
/// palette and a one-byte palette index per pixel. Palette entries convert
/// tuple-for-tuple; a failure is reported under the "Remap error" context.
#[verifier::external_body]
fn liq_remapped(
    result: &mut imagequant::QuantizationResult,
    image: &mut imagequant::Image<'static>,
) -> (r: Result<(Vec<(u8, u8, u8, u8)>, Vec<u8>), String>)
    ensures
        r matches Err(m) ==> ("Remap error: "@).is_prefix_of(m@),
{
    let (palette, indices) = result.remapped(image).map_err(|e| format!("Remap error: {}", e))?;
    let palette: Vec<(u8, u8, u8, u8)> = palette.iter().map(|c| (c.r, c.g, c.b, c.a)).collect();
    Ok((palette, indices))
}

/// The messages the quantization stage can fail with: a step-identifying
/// context ("Quality error", "Speed error", "Colors error", "Image error",
/// "Quantize error", "Remap error") followed by the quantizer's own words,
/// or one of the stage's own reconciliation checks.
pub open spec fn quantize_failure_message(m: Seq<char>) -> bool {
    ||| ("Quality error: "@).is_prefix_of(m)
    ||| ("Speed error: "@).is_prefix_of(m)
    ||| ("Colors error: "@).is_prefix_of(m)
    ||| ("Image error: "@).is_prefix_of(m)
    ||| ("Quantize error: "@).is_prefix_of(m)
    ||| ("Remap error: "@).is_prefix_of(m)
    ||| m == ("quantizer remap returned an out-of-palette index"@)
    ||| m == ("quantizer returned more colors than requested"@)
    ||| m == ("quantizer remap did not cover every pixel"@)
    ||| m == ("quantized buffer size does not match the image"@)
    ||| m == ("quantized buffer could not be wrapped"@)
}

/// Flatten a buffer's bytes into discrete RGBA samples, one 4-tuple per
/// pixel.
fn flatten_samples(bytes: &Vec<u8>) -> (r: Vec<(u8, u8, u8, u8)>)
    requires
        bytes@.len() % 4 == 0,
    ensures
        r@ == pixels_of(bytes@),
{
    let n: usize = bytes.len() / 4;
    let mut out: Vec<(u8, u8, u8, u8)> = Vec::new();
    let mut i: usize = 0;
    while i < n
        invariant
            bytes@.len() % 4 == 0,
            bytes@.len() <= usize::MAX,
            n == bytes@.len() / 4,
            i <= n,
            out@.len() == i,
            forall|j: int| 0 <= j < i ==> out@[j] == pixels_of(bytes@)[j],
        decreases n - i,
    {
        proof {
            vstd::arithmetic::div_mod::lemma_fundamental_div_mod(bytes@.len() as int, 4);
            assert(4 * n == bytes@.len());
        }
        let px = (bytes[4 * i], bytes[4 * i + 1], bytes[4 * i + 2], bytes[4 * i + 3]);
        out.push(px);
        i = i + 1;
    }
    proof {
        assert(out@ =~= pixels_of(bytes@));
    }
    out
}

/// Reassemble remapped samples into a flat byte sequence: pixel `i` becomes
/// the four bytes of `palette[indices[i]]`. An index outside the palette is
/// a defect in the quantizer integration and fails loudly.
fn rebuild_rgba(palette: &Vec<(u8, u8, u8, u8)>, indices: &Vec<u8>) -> (r: CompressResult<Vec<u8>>)
    requires
        indices@.len() * 4 <= usize::MAX as int,
    ensures
        r is Ok <==> (forall|j: int|
            0 <= j < indices@.len() ==> (indices@[j] as int) < palette@.len()),
        r matches Ok(v) ==> {
            &&& v@.len() == indices@.len() * 4
            &&& forall|j: int|
                0 <= j < indices@.len() ==> pixels_of(v@)[j] == palette@[indices@[j] as int]
        },
        r matches Err(e) ==> (e matches CompressError::PngError(m) && m@ == (
        "quantizer remap returned an out-of-palette index"@)),
{
    let n: usize = indices.len();
    let mut out: Vec<u8> = Vec::new();
    let mut i: usize = 0;
    while i < n
        invariant
            n == indices@.len(),
            n * 4 <= usize::MAX as int,
            i <= n,
            out@.len() == i * 4,
            forall|j: int|
                0 <= j < i ==> {
                    &&& (indices@[j] as int) < palette@.len()
                    &&& out@[4 * j] == palette@[indices@[j] as int].0
                    &&& out@[4 * j + 1] == palette@[indices@[j] as int].1
                    &&& out@[4 * j + 2] == palette@[indices@[j] as int].2
                    &&& out@[4 * j + 3] == palette@[indices@[j] as int].3
                },
        decreases n - i,
    {
        let idx = indices[i] as usize;
        if idx >= palette.len() {
            return Err(
                CompressError::PngError("quantizer remap returned an out-of-palette index".to_owned()),
            );
        }
        let (red, green, blue, alpha) = palette[idx];
        out.push(red);
        out.push(green);
        out.push(blue);
        out.push(alpha);
        i = i + 1;
    }
    proof {
        assert forall|j: int|
            0 <= j < indices@.len() implies pixels_of(out@)[j] == palette@[indices@[j] as int] by {
            assert(out@[4 * j] == palette@[indices@[j] as int].0);
        }
    }
    Ok(out)
}

/// Reduce a full-color buffer to at most `colors` distinct colors.
///
/// Configures the external quantizer (full 0-100 quality range, fixed
/// mid-value effort, `colors` as the palette ceiling), submits the flattened
/// samples, runs quantization and remap, and reconciles the palette + index
/// answer back into a dense buffer of the same dimensions. Every remapped
/// byte sequence that does not measure exactly `width * height * 4` bytes
/// fails loudly as `PngError` rather than being truncated or padded.
pub fn quantize_image(image: &PixelBuffer, colors: u8) -> (r: CompressResult<PixelBuffer>)
    requires
        image.wf(),
    ensures
        r matches Ok(q) ==> {
            &&& q.wf()
            &&& q.spec_width() == image.spec_width()
            &&& q.spec_height() == image.spec_height()
            &&& q@.len() == expected_len(image.spec_width(), image.spec_height())
            &&& color_count(q@) <= colors as nat
        },
        r matches Err(e) ==> (e matches CompressError::PngError(m) && quantize_failure_message(
            m@,
        )),
        colors < 2 ==> r is Err,
{
    let width = image.width();
    let height = image.height();
    let expected: usize = image.as_raw().len();
    proof {
        assert(image@.len() % 4 == 0) by {
            assert(image@.len() == (width as int) * (height as int) * 4);
            assert((width as int) * (height as int) * 4 % 4 == 0) by (nonlinear_arith);
        }
    }
    let samples = flatten_samples(image.as_raw());
    let mut attr = liq_new();
    match liq_set_quality(&mut attr, 0, 100) {
        Ok(()) => {},
        Err(m) => {
            return Err(CompressError::PngError(m));
        },
    }
    match liq_set_speed(&mut attr, 4) {
        Ok(()) => {},
        Err(m) => {
            return Err(CompressError::PngError(m));
        },
    }
    match liq_set_max_colors(&mut attr, colors as u32) {
        Ok(()) => {},
        Err(m) => {
            return Err(CompressError::PngError(m));
        },
    }
    let mut img = match liq_new_image(&attr, samples, width as usize, height as usize) {
        Ok(v) => v,
        Err(m) => {
            return Err(CompressError::PngError(m));
        },
    };
    let mut result = match liq_quantize(&attr, &mut img) {
        Ok(v) => v,
        Err(m) => {
            return Err(CompressError::PngError(m));
        },
    };
    let (palette, indices) = match liq_remapped(&mut result, &mut img) {
        Ok(v) => v,
        Err(m) => {
            return Err(CompressError::PngError(m));
        },
    };
    if palette.len() > colors as usize {
        return Err(
            CompressError::PngError("quantizer returned more colors than requested".to_owned()),
        );
    }
    if indices.len() != expected / 4 {
        return Err(
            CompressError::PngError("quantizer remap did not cover every pixel".to_owned()),
        );
    }
    let bytes = match rebuild_rgba(&palette, &indices) {
        Ok(v) => v,
        Err(e) => {
            return Err(e);
        },
    };
    if bytes.len() != expected {
        return Err(
            CompressError::PngError("quantized buffer size does not match the image".to_owned()),
        );
    }
    proof {
        lemma_color_count_bounded(bytes@, palette@, indices@);
    }
    match PixelBuffer::from_vec(bytes, width, height) {
        Ok(q) => Ok(q),
        Err(_) => Err(
            CompressError::PngError("quantized buffer could not be wrapped".to_owned()),
        ),
    }
}

/// A byte sequence whose every pixel comes out of a palette holds no more
/// distinct colors than the palette has entries.
proof fn lemma_color_count_bounded(
    bytes: Seq<u8>,
    palette: Seq<(u8, u8, u8, u8)>,
    indices: Seq<u8>,
)
    requires
        bytes.len() == indices.len() * 4,
        forall|j: int| 0 <= j < indices.len() ==> pixels_of(bytes)[j] == palette[indices[j] as int],
        forall|j: int| 0 <= j < indices.len() ==> (indices[j] as int) < palette.len(),
    ensures
        color_count(bytes) <= palette.len(),
{
    broadcast use vstd::seq_lib::seq_to_set_is_finite;

    let pix = pixels_of(bytes);
    assert(pix.len() == indices.len());
    assert forall|p: (u8, u8, u8, u8)| pix.to_set().contains(p) implies palette.to_set().contains(
        p,
    ) by {
        let j = choose|j: int| 0 <= j < pix.len() && pix[j] == p;
        assert(palette[indices[j] as int] == p);
        assert(palette.to_set().contains(palette[indices[j] as int]));
    }
    assert(pix.to_set().subset_of(palette.to_set()));
    lemma_len_subset(pix.to_set(), palette.to_set());
    palette.lemma_cardinality_of_set();
}

} // verus!
