//! The AVIF branch of the pipeline: options, user-speed to encoder-effort
//! mapping, and the encoder adapter.

use vstd::prelude::*;

use crate::error::{CompressError, CompressResult, ErrorModel};
use crate::error::outcome_model;
use crate::utils::{expected_len, valid_dims};
use crate::utils::{rgba_to_image_buffer, validate_dimensions};

verus! {

/// AVIF compression options.
///
/// `quality` runs 1-100, higher keeping more fidelity (and producing larger
/// files); `speed` runs 1-10 on the user scale, higher meaning faster.
pub struct AvifOptions {
    pub quality: u8,
    pub speed: u8,
}

impl Default for AvifOptions {
    /// The documented defaults: quality 60, speed 10.
    fn default() -> (d: Self)
        ensures
            d.quality == 60,
            d.speed == 10,
    {
        AvifOptions { quality: 60, speed: 10 }
    }
}

/// The encoder effort derived from a user speed: `speed - 1` for the 1-10
/// user scale, and the fastest effort 9 for anything out of range (a
/// deliberate fail-open choice favoring throughput).
pub open spec fn spec_map_speed(speed: u8) -> u8 {
    if 1 <= speed && speed <= 10 {
        (speed - 1) as u8
    } else {
        9
    }
}

/// Map the user speed scale (1-10, higher is faster) onto the encoder
/// effort scale (0-9, higher is also faster).
pub fn map_avif_speed(speed: u8) -> (r: u8)
    ensures
        r == spec_map_speed(speed),
        r <= 9,
{
    match speed {
        1 => 0,
        2 => 1,
        3 => 2,
        4 => 3,
        5 => 4,
        6 => 5,
        7 => 6,
        8 => 7,
        9 => 8,
        10 => 9,
        _ => 9,
    }
}

/// Law: the speed mapping is total and monotone on the user scale. Every
/// user speed 1-10 derives an effort inside 0-9, and a higher user speed
/// never derives a lower (slower) effort value.
pub proof fn lemma_speed_mapping_monotonic(s1: u8, s2: u8)
    requires
        1 <= s1 <= 10,
        1 <= s2 <= 10,
        s1 <= s2,
    ensures
        spec_map_speed(s1) <= spec_map_speed(s2),
        spec_map_speed(s2) <= 9,
{
}

/// The outcome the AVIF encoder produces for the given pixels, dimensions,
/// quality, and encoder speed knob. The encoder is deterministic, so its
/// outcome is a function of these arguments alone.
pub uninterp spec fn avif_encode_result(
    pixels: Seq<u8>,
    width: u32,
    height: u32,
    quality: u8,
    speed: u8,
) -> Result<Seq<u8>, Seq<char>>;

/// Relies on ravif's `Encoder` (`with_quality`, `with_speed`,
/// `with_num_threads`, `encode_rgba`). The thread count is pinned to one:
/// left unset, ravif derives the tile count from the machine's available
/// parallelism, and tiling changes the bitstream, so the output would sway
/// with the core count. With one thread the tile configuration is fixed
/// and the encode is deterministic in the pixels, dimensions, quality, and
/// speed, on every machine. `bytemuck::cast_slice` and `imgref::Img::new`
/// only reinterpret the flat bytes as rows of 4-byte RGBA pixels, without
/// copying. `with_quality` and `with_speed` assert their 1-100 and 1-10
/// ranges, and `Img::new` its size equation, so those stand as `requires`.
#[verifier::external_body]
fn avif_encode_rgba(pixels: &Vec<u8>, width: u32, height: u32, quality: u8, speed: u8) -> (r:
    Result<Vec<u8>, String>)
    requires
        valid_dims(width, height),
        pixels@.len() == expected_len(width, height),
        1 <= quality <= 100,
        1 <= speed <= 10,
    ensures
        (match r {
            Ok(v) => Ok::<Seq<u8>, Seq<char>>(v@),
            Err(e) => Err(e@),
        }) == avif_encode_result(pixels@, width, height, quality, speed),
{
    let img = imgref::Img::new(
        bytemuck::cast_slice::<u8, rgb::RGBA<u8>>(pixels.as_slice()),
        width as usize,
        height as usize,
    );
    let encoded = ravif::Encoder::new()
        .with_num_threads(Some(1))
        .with_quality(quality.into())
        .with_speed(speed)
        .encode_rgba(img)
        .map_err(|e| e.to_string())?;
    Ok(encoded.avif_file)
}

/// The outcome the AVIF pipeline owes for the given input: the exact
/// validation errors, or whatever the encoder resolves to for the derived
/// parameters.
pub open spec fn avif_outcome(
    data: Seq<u8>,
    width: u32,
    height: u32,
    options: AvifOptions,
) -> Result<Seq<u8>, ErrorModel> {
    if !valid_dims(width, height) {
        Err(ErrorModel::InvalidDimensions(width, height))
    } else if data.len() != expected_len(width, height) {
        Err(
            ErrorModel::InvalidDataSize {
                expected: expected_len(width, height),
                actual: data.len() as int,
            },
        )
    } else {
        match avif_encode_result(
            data,
            width,
            height,
            options.quality,
            (spec_map_speed(options.speed) + 1) as u8,
        ) {
            Ok(b) => Ok(b),
            Err(m) => Err(ErrorModel::AvifError(m)),
        }
    }
}

/// Compress an RGBA byte buffer into an AVIF container.
///
/// Validates the dimensions, materializes the pixel buffer, maps the user
/// speed onto the encoder's effort scale, and hands the pixels to the
/// encoder; any encoder failure comes back as `AvifError`.
pub fn compress_avif(data: &[u8], width: u32, height: u32, options: AvifOptions) -> (r: CompressResult<Vec<u8>>)
    requires
        1 <= options.quality <= 100,
        valid_dims(width, height) ==> expected_len(width, height) <= usize::MAX as int,
    ensures
        outcome_model(r) == avif_outcome(data@, width, height, options),
{
    match validate_dimensions(width, height) {
        Ok(()) => {},
        Err(e) => {
            return Err(e);
        },
    }
    let image = match rgba_to_image_buffer(data, width, height) {
        Ok(b) => b,
        Err(e) => {
            return Err(e);
        },
    };
    let effort = map_avif_speed(options.speed);
    // The encoder in use numbers its speed knob 1-10; the 0-9 effort scale
    // shifts up by one onto it, keeping order and endpoints.
    let encoder_speed = effort + 1;
    match avif_encode_rgba(image.as_raw(), width, height, options.quality, encoder_speed) {
        Ok(v) => Ok(v),
        Err(m) => Err(CompressError::AvifError(m)),
    }
}

/// Law: AVIF compression is deterministic. Two outcomes owed to the same
/// bytes, dimensions, and options are the same outcome, so repeating a
/// successful call returns byte-identical output.
pub proof fn lemma_avif_deterministic(
    r1: CompressResult<Vec<u8>>,
    r2: CompressResult<Vec<u8>>,
    data: Seq<u8>,
    width: u32,
    height: u32,
    options: AvifOptions,
)
    requires
        outcome_model(r1) == avif_outcome(data, width, height, options),
        outcome_model(r2) == avif_outcome(data, width, height, options),
    ensures
        outcome_model(r1) == outcome_model(r2),
{
}

} // verus!
