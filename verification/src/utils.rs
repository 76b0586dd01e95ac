//! Dimension validation and the canonical in-memory pixel buffer.

use vstd::prelude::*;

use crate::error::{err_model, CompressError, CompressResult, ErrorModel};

verus! {

/// Largest width or height the pipeline accepts. Guards against pathological
/// allocation requests arriving over an untrusted boundary.
pub const MAX_DIMENSION: u32 = 65536;

/// Dimensions the pipeline accepts: both sides between 1 and 65536.
pub open spec fn valid_dims(width: u32, height: u32) -> bool {
    1 <= width && width <= MAX_DIMENSION && 1 <= height && height <= MAX_DIMENSION
}

/// Exact number of bytes a `width` x `height` RGBA buffer must hold:
/// four bytes (red, green, blue, alpha) per pixel, row-major, no padding.
pub open spec fn expected_len(width: u32, height: u32) -> int {
    (width as int) * (height as int) * 4
}

/// Check width/height bounds before any buffer is materialized.
///
/// Rejects degenerate (zero-sized) images and sides above 65536; accepts
/// everything in between, allocating nothing either way.
pub fn validate_dimensions(width: u32, height: u32) -> (r: CompressResult<()>)
    ensures
        valid_dims(width, height) ==> r is Ok,
        !valid_dims(width, height) ==> (r matches Err(e) && err_model(e)
            == ErrorModel::InvalidDimensions(width, height)),
{
    if width == 0 || height == 0 {
        return Err(CompressError::InvalidDimensions(width, height));
    }
    if width > MAX_DIMENSION || height > MAX_DIMENSION {
        return Err(CompressError::InvalidDimensions(width, height));
    }
    Ok(())
}

/// The canonical in-memory image: `width` x `height` pixels as a flat byte
/// sequence in row-major RGBA order. A live buffer always holds exactly
/// `width * height * 4` bytes; a violation is rejected at construction,
/// never at use.
pub struct PixelBuffer {
    width: u32,
    height: u32,
    bytes: Vec<u8>,
}

impl View for PixelBuffer {
    type V = Seq<u8>;

    closed spec fn view(&self) -> Seq<u8> {
        self.bytes@
    }
}

impl PixelBuffer {
    /// The buffer's width in pixels.
    pub closed spec fn spec_width(&self) -> u32 {
        self.width
    }

    /// The buffer's height in pixels.
    pub closed spec fn spec_height(&self) -> u32 {
        self.height
    }

    /// The buffer invariant: the byte sequence has exactly the length its
    /// dimensions demand.
    pub open spec fn wf(&self) -> bool {
        self@.len() == expected_len(self.spec_width(), self.spec_height())
    }

    /// Construct a buffer by copying from borrowed bytes; the caller keeps
    /// the source. Fails with the exact expected/actual sizes when the
    /// length does not match the dimensions.
    pub fn from_bytes(data: &[u8], width: u32, height: u32) -> (r: CompressResult<PixelBuffer>)
        requires
            expected_len(width, height) <= usize::MAX as int,
        ensures
            data@.len() == expected_len(width, height) ==> (r matches Ok(b) && b.wf()
                && b.spec_width() == width && b.spec_height() == height && b@ == data@),
            data@.len() != expected_len(width, height) ==> (r matches Err(e) && err_model(e)
                == ErrorModel::InvalidDataSize {
                expected: expected_len(width, height),
                actual: data@.len() as int,
            }),
    {
        let expected: usize = ((width as u64) * (height as u64) * 4) as usize;
        if data.len() != expected {
            return Err(CompressError::InvalidDataSize { expected, actual: data.len() });
        }
        let bytes = vstd::slice::slice_to_vec(data);
        Ok(PixelBuffer { width, height, bytes })
    }

    /// Construct a buffer by taking ownership of already-owned bytes; no
    /// copy is made. Validation is identical to `from_bytes`.
    pub fn from_vec(data: Vec<u8>, width: u32, height: u32) -> (r: CompressResult<PixelBuffer>)
        requires
            expected_len(width, height) <= usize::MAX as int,
        ensures
            data@.len() == expected_len(width, height) ==> (r matches Ok(b) && b.wf()
                && b.spec_width() == width && b.spec_height() == height && b@ == data@),
            data@.len() != expected_len(width, height) ==> (r matches Err(e) && err_model(e)
                == ErrorModel::InvalidDataSize {
                expected: expected_len(width, height),
                actual: data@.len() as int,
            }),
    {
        let expected: usize = ((width as u64) * (height as u64) * 4) as usize;
        if data.len() != expected {
            return Err(CompressError::InvalidDataSize { expected, actual: data.len() });
        }
        Ok(PixelBuffer { width, height, bytes: data })
    }

    /// The buffer's width in pixels.
    pub fn width(&self) -> (w: u32)
        ensures
            w == self.spec_width(),
    {
        self.width
    }

    /// The buffer's height in pixels.
    pub fn height(&self) -> (h: u32)
        ensures
            h == self.spec_height(),
    {
        self.height
    }

    /// Borrow the flat RGBA bytes.
    pub fn as_raw(&self) -> (b: &Vec<u8>)
        ensures
            b@ == self@,
    {
        &self.bytes
    }

    /// Give up the buffer and hand its flat RGBA bytes back.
    pub fn into_raw(self) -> (b: Vec<u8>)
        ensures
            b@ == self@,
    {
        self.bytes
    }
}

/// Wrap raw RGBA bytes into a structured buffer, copying them; the
/// caller retains the source slice.
pub fn rgba_to_image_buffer(data: &[u8], width: u32, height: u32) -> (r: CompressResult<PixelBuffer>)
    requires
        expected_len(width, height) <= usize::MAX as int,
    ensures
        data@.len() == expected_len(width, height) ==> (r matches Ok(b) && b.wf()
            && b.spec_width() == width && b.spec_height() == height && b@ == data@),
        data@.len() != expected_len(width, height) ==> (r matches Err(e) && err_model(e)
            == ErrorModel::InvalidDataSize {
            expected: expected_len(width, height),
            actual: data@.len() as int,
        }),
{
    PixelBuffer::from_bytes(data, width, height)
}

/// The byte sequence read as whole pixels: element `i` is the 4-tuple
/// (red, green, blue, alpha) of pixel `i`.
pub open spec fn pixels_of(bytes: Seq<u8>) -> Seq<(u8, u8, u8, u8)> {
    Seq::new((bytes.len() / 4) as nat, |i: int| (bytes[4 * i], bytes[4 * i + 1], bytes[4 * i + 2], bytes[4 * i + 3]))
}

/// How many distinct RGBA values the byte sequence holds.
pub open spec fn color_count(bytes: Seq<u8>) -> nat {
    pixels_of(bytes).to_set().len()
}

} // verus!
