//! The PNG branch of the pipeline: options, the optional quantization
//! stage, and the encoder adapter.

use vstd::prelude::*;

use crate::error::{err_model, outcome_model, CompressError, CompressResult, ErrorModel};
use crate::quantize::{quantize_failure_message, quantize_image};
use crate::utils::{color_count, expected_len, valid_dims};
use crate::utils::{rgba_to_image_buffer, validate_dimensions};

verus! {

/// PNG compression options.
///
/// `colors` runs 1-255 and bounds the palette size; 255 means no
/// quantization at all. `compression_level` (0-9) is the deflate effort
/// knob; it is accepted and carried, but the pipeline fixes the encoder at
/// its default effort, so the knob is currently inert. The
/// boundary-facing options also carry a fractional dithering knob with the
/// same accepted-but-inert standing; the core options hold only what the
/// pipeline reads.
pub struct PngOptions {
    pub colors: u8,
    pub compression_level: u8,
}

/// The default deflate effort carried by `PngOptions`.
pub fn default_compression_level() -> (r: u8)
    ensures
        r == 6,
{
    6
}

impl Default for PngOptions {
    /// The documented defaults: colors 255 (no quantization), compression
    /// level 6.
    fn default() -> (d: Self)
        ensures
            d.colors == 255,
            d.compression_level == 6,
    {
        PngOptions { colors: 255, compression_level: 6 }
    }
}

/// The container the PNG encoder writes for the given pixels and
/// dimensions under this pipeline's fixed settings. The encoder is
/// deterministic, so the bytes are a function of these arguments alone.
pub uninterp spec fn png_encode_bytes(pixels: Seq<u8>, width: u32, height: u32) -> Seq<u8>;

/// Relies on the png crate's `Encoder` and `Writer` (`write_header`,
/// `write_image_data`, and the finishing drop): the container written
/// under fixed settings is deterministic in the pixels and dimensions,
/// and with the dimensions in range, the byte count exact, and the sink an
/// in-memory vector, neither call can fail (their errors cover only
/// invalid parameters and sink I/O), so success is promised. The settings
/// fixed here are the ones the pipeline prescribes: color type RGBA, bit
/// depth 8, the encoder's default (balanced) compression effort, and the
/// fixed "Sub" filter.
#[verifier::external_body]
fn png_encode_rgba(pixels: &Vec<u8>, width: u32, height: u32) -> (r: Result<Vec<u8>, String>)
    requires
        valid_dims(width, height),
        pixels@.len() == expected_len(width, height),
    ensures
        r is Ok,
        r matches Ok(v) ==> v@ == png_encode_bytes(pixels@, width, height),
{
    let mut out: Vec<u8> = Vec::new();
    let mut encoder = png::Encoder::new(&mut out, width, height);
    encoder.set_color(png::ColorType::Rgba);
    encoder.set_depth(png::BitDepth::Eight);
    encoder.set_compression(png::Compression::default());
    encoder.set_filter(png::Filter::Sub);
    let mut writer = encoder.write_header().map_err(|e| e.to_string())?;
    writer.write_image_data(pixels.as_slice()).map_err(|e| e.to_string())?;
    drop(writer);
    Ok(out)
}

/// Compress an RGBA byte buffer into a PNG container.
///
/// Validates the dimensions, materializes the pixel buffer, quantizes it
/// down to `options.colors` colors when that is below 255, and serializes
/// the (possibly quantized) buffer under the pipeline's fixed settings.
/// With quantization bypassed the call succeeds and the output is pinned
/// to the encoder's answer for the input bytes; with quantization on, a
/// success is the encoder's answer for some same-sized buffer of at most
/// `options.colors` distinct colors, and every failure past validation is
/// a `PngError` carrying one of the quantization stage's messages.
pub fn compress_png(data: &[u8], width: u32, height: u32, options: PngOptions) -> (r: CompressResult<Vec<u8>>)
    requires
        valid_dims(width, height) ==> expected_len(width, height) <= usize::MAX as int,
    ensures
        !valid_dims(width, height) ==> (r matches Err(e) && err_model(e)
            == ErrorModel::InvalidDimensions(width, height)),
        valid_dims(width, height) && data@.len() != expected_len(width, height) ==> (r matches Err(
            e,
        ) && err_model(e) == ErrorModel::InvalidDataSize {
            expected: expected_len(width, height),
            actual: data@.len() as int,
        }),
        valid_dims(width, height) && data@.len() == expected_len(width, height) && options.colors
            == 255 ==> outcome_model(r) == Ok::<Seq<u8>, ErrorModel>(
            png_encode_bytes(data@, width, height),
        ),
        valid_dims(width, height) && data@.len() == expected_len(width, height) && options.colors
            < 255 ==> {
            &&& (r matches Ok(v) ==> exists|q: Seq<u8>|
                {
                    &&& q.len() == expected_len(width, height)
                    &&& color_count(q) <= options.colors as nat
                    &&& png_encode_bytes(q, width, height) == v@
                })
            &&& (r matches Err(e) ==> (e matches CompressError::PngError(m)
                && quantize_failure_message(m@)))
            &&& (options.colors < 2 ==> r is Err)
        },
{
    match validate_dimensions(width, height) {
        Ok(()) => {},
        Err(e) => {
            return Err(e);
        },
    }
    let image = match rgba_to_image_buffer(data, width, height) {
        Ok(b) => b,
        Err(e) => {
            return Err(e);
        },
    };
    let buffer = if options.colors < 255 {
        match quantize_image(&image, options.colors) {
            Ok(q) => q,
            Err(e) => {
                return Err(e);
            },
        }
    } else {
        image
    };
    let encoded = match png_encode_rgba(buffer.as_raw(), width, height) {
        Ok(v) => v,
        Err(m) => {
            return Err(CompressError::PngError(m));
        },
    };
    proof {
        if options.colors < 255 {
            let q = buffer@;
            assert(q.len() == expected_len(width, height) && color_count(q)
                <= options.colors as nat && png_encode_bytes(q, width, height) == encoded@);
        }
    }
    Ok(encoded)
}

/// Law: with quantization bypassed (`colors` at 255), PNG compression is
/// deterministic. Two outcomes owed to the same bytes, dimensions, and
/// options are the same outcome, so repeating a successful call returns
/// byte-identical output.
pub proof fn lemma_png_deterministic(
    r1: CompressResult<Vec<u8>>,
    r2: CompressResult<Vec<u8>>,
    data: Seq<u8>,
    width: u32,
    height: u32,
)
    requires
        valid_dims(width, height),
        data.len() == expected_len(width, height),
        outcome_model(r1) == Ok::<Seq<u8>, ErrorModel>(png_encode_bytes(data, width, height)),
        outcome_model(r2) == Ok::<Seq<u8>, ErrorModel>(png_encode_bytes(data, width, height)),
    ensures
        outcome_model(r1) == outcome_model(r2),
        r1 matches Ok(v1) && r2 matches Ok(v2) && v1@ == v2@,
{
}

} // verus!
