//! The closed error taxonomy of the compression pipeline.
//!
//! Every stage reports its failure as one of these kinds; no stage recovers
//! from a failure of a lower stage, and the value travels upward unchanged.

use vstd::prelude::*;

verus! {

/// Result alias for compression operations.
pub type CompressResult<T> = Result<T, CompressError>;

/// A failure of one compression call.
///
/// - `InvalidDimensions`: width or height is 0, or either exceeds 65536.
/// - `InvalidDataSize`: the input byte length does not equal `width * height * 4`.
/// - `PngError`: quantizer configuration, quantization, remap, or PNG write failure.
/// - `AvifError`: AVIF encode failure.
/// - `IoError`: an I/O failure surfaced while writing encoded bytes.
#[derive(Debug)]
pub enum CompressError {
    InvalidDimensions(u32, u32),
    InvalidDataSize { expected: usize, actual: usize },
    PngError(String),
    AvifError(String),
    IoError(String),
}

/// Mathematical model of a `CompressError`: the same tags over plain values,
/// with every message as a character sequence. Contracts speak of this model.
pub enum ErrorModel {
    InvalidDimensions(u32, u32),
    InvalidDataSize { expected: int, actual: int },
    PngError(Seq<char>),
    AvifError(Seq<char>),
    IoError(Seq<char>),
}

/// The model of an error value.
pub open spec fn err_model(e: CompressError) -> ErrorModel {
    match e {
        CompressError::InvalidDimensions(w, h) => ErrorModel::InvalidDimensions(w, h),
        CompressError::InvalidDataSize { expected, actual } => ErrorModel::InvalidDataSize {
            expected: expected as int,
            actual: actual as int,
        },
        CompressError::PngError(m) => ErrorModel::PngError(m@),
        CompressError::AvifError(m) => ErrorModel::AvifError(m@),
        CompressError::IoError(m) => ErrorModel::IoError(m@),
    }
}

/// The model of a whole pipeline outcome: encoded bytes, or a modelled error.
pub open spec fn outcome_model(r: CompressResult<Vec<u8>>) -> Result<
    Seq<u8>,
    ErrorModel,
> {
    match r {
        Ok(v) => Ok(v@),
        Err(e) => Err(err_model(e)),
    }
}

} // verus!
