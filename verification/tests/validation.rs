use pic_compress::{validate_dimensions, CompressError, PixelBuffer};

#[test]
fn validate_accepts_whole_range() {
    assert!(validate_dimensions(1, 1).is_ok());
    assert!(validate_dimensions(65536, 65536).is_ok());
    assert!(validate_dimensions(65536, 1).is_ok());
    assert!(validate_dimensions(1, 65536).is_ok());
    assert!(validate_dimensions(640, 480).is_ok());
}

#[test]
fn validate_rejects_zero() {
    assert!(matches!(
        validate_dimensions(0, 5),
        Err(CompressError::InvalidDimensions(0, 5))
    ));
    assert!(matches!(
        validate_dimensions(5, 0),
        Err(CompressError::InvalidDimensions(5, 0))
    ));
}

#[test]
fn validate_rejects_oversize() {
    assert!(matches!(
        validate_dimensions(65537, 1),
        Err(CompressError::InvalidDimensions(65537, 1))
    ));
    assert!(matches!(
        validate_dimensions(1, 65537),
        Err(CompressError::InvalidDimensions(1, 65537))
    ));
}

#[test]
fn from_bytes_reports_exact_sizes() {
    let data = [0u8; 10];
    let r = PixelBuffer::from_bytes(&data, 2, 2);
    assert!(matches!(
        r,
        Err(CompressError::InvalidDataSize {
            expected: 16,
            actual: 10
        })
    ));
}

#[test]
fn from_bytes_accepts_exact_buffer() {
    let data = [1u8, 2, 3, 4, 5, 6, 7, 8];
    let b = PixelBuffer::from_bytes(&data, 2, 1).unwrap();
    assert_eq!(b.width(), 2);
    assert_eq!(b.height(), 1);
    assert_eq!(b.as_raw().as_slice(), &data);
}

#[test]
fn from_vec_moves_without_copy_semantics() {
    let data = vec![9u8, 8, 7, 6];
    let b = PixelBuffer::from_vec(data.clone(), 1, 1).unwrap();
    assert_eq!(b.into_raw(), data);
}

#[test]
fn from_vec_reports_exact_sizes() {
    let data = vec![0u8; 5];
    let r = PixelBuffer::from_vec(data, 1, 1);
    assert!(matches!(
        r,
        Err(CompressError::InvalidDataSize {
            expected: 4,
            actual: 5
        })
    ));
}

#[test]
fn rgba_to_image_buffer_matches_from_bytes() {
    let data = [0u8; 12];
    let b = pic_compress::utils::rgba_to_image_buffer(&data, 3, 1).unwrap();
    assert_eq!(b.width(), 3);
    assert_eq!(b.height(), 1);
    let r = pic_compress::utils::rgba_to_image_buffer(&data, 2, 1);
    assert!(matches!(
        r,
        Err(CompressError::InvalidDataSize {
            expected: 8,
            actual: 12
        })
    ));
}
