use pic_compress::avif_codec::map_avif_speed;
use pic_compress::{compress_avif, AvifOptions, CompressError};

#[test]
fn speed_mapping_is_total_and_shifted() {
    for user in 1u8..=10 {
        let effort = map_avif_speed(user);
        assert_eq!(effort, user - 1);
        assert!(effort <= 9);
    }
}

#[test]
fn speed_mapping_is_monotonic() {
    let mut previous = map_avif_speed(1);
    for user in 2u8..=10 {
        let effort = map_avif_speed(user);
        assert!(effort >= previous);
        previous = effort;
    }
}

#[test]
fn speed_mapping_fails_open_to_fastest() {
    assert_eq!(map_avif_speed(0), 9);
    assert_eq!(map_avif_speed(11), 9);
    assert_eq!(map_avif_speed(255), 9);
}

#[test]
fn avif_produces_container_bytes() {
    let data = [255u8, 0, 0, 255];
    let options = AvifOptions {
        quality: 60,
        speed: 10,
    };
    let encoded = compress_avif(&data, 1, 1, options).unwrap();
    assert!(!encoded.is_empty());
    // An AVIF container starts with an ftyp box.
    assert_eq!(&encoded[4..8], b"ftyp");
}

#[test]
fn avif_encoding_is_idempotent() {
    let data: Vec<u8> = (0..8u32 * 8 * 4).map(|i| (i % 239) as u8).collect();
    let options = || AvifOptions {
        quality: 50,
        speed: 10,
    };
    let first = compress_avif(&data, 8, 8, options()).unwrap();
    let second = compress_avif(&data, 8, 8, options()).unwrap();
    assert_eq!(first, second);
}

#[test]
fn avif_invalid_dimensions() {
    let options = AvifOptions {
        quality: 60,
        speed: 10,
    };
    let r = compress_avif(&[], 70000, 1, options);
    assert!(matches!(
        r,
        Err(CompressError::InvalidDimensions(70000, 1))
    ));
}

#[test]
fn avif_invalid_data_size() {
    let data = [0u8; 7];
    let options = AvifOptions {
        quality: 60,
        speed: 10,
    };
    let r = compress_avif(&data, 1, 1, options);
    assert!(matches!(
        r,
        Err(CompressError::InvalidDataSize {
            expected: 4,
            actual: 7
        })
    ));
}

#[test]
fn avif_options_defaults() {
    let d = AvifOptions::default();
    assert_eq!(d.quality, 60);
    assert_eq!(d.speed, 10);
}
