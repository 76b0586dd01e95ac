use std::collections::HashSet;
use std::io::Cursor;

use pic_compress::quantize::quantize_image;
use pic_compress::{
    compress_png, default_compression_level, CompressError, PixelBuffer, PngOptions,
};

fn decode_png(bytes: &[u8]) -> (u32, u32, Vec<u8>) {
    let decoder = png::Decoder::new(Cursor::new(bytes));
    let mut reader = decoder.read_info().expect("valid PNG header");
    let mut buf = vec![0u8; reader.output_buffer_size().expect("known output size")];
    let info = reader.next_frame(&mut buf).expect("valid PNG data");
    buf.truncate(info.buffer_size());
    (info.width, info.height, buf)
}

#[test]
fn png_round_trip_red_pixel() {
    let data = [255u8, 0, 0, 255];
    let options = PngOptions {
        colors: 255,
        compression_level: 6,
    };
    let encoded = compress_png(&data, 1, 1, options).unwrap();
    let (w, h, pixels) = decode_png(&encoded);
    assert_eq!(w, 1);
    assert_eq!(h, 1);
    assert_eq!(pixels.as_slice(), &data);
}

#[test]
fn png_round_trip_multi_pixel() {
    let data = [
        255u8, 0, 0, 255, 0, 255, 0, 255, 0, 0, 255, 255, 10, 20, 30, 40,
    ];
    let options = PngOptions {
        colors: 255,
        compression_level: 6,
    };
    let encoded = compress_png(&data, 2, 2, options).unwrap();
    let (w, h, pixels) = decode_png(&encoded);
    assert_eq!((w, h), (2, 2));
    assert_eq!(pixels.as_slice(), &data);
}

#[test]
fn quantization_reduces_distinct_colors() {
    // 100x100, four flat-color quadrants.
    let (width, height) = (100u32, 100u32);
    let quadrants = [
        [255u8, 0, 0, 255],
        [0u8, 255, 0, 255],
        [0u8, 0, 255, 255],
        [255u8, 255, 0, 255],
    ];
    let mut data = Vec::with_capacity((width * height * 4) as usize);
    for y in 0..height {
        for x in 0..width {
            let q = if y < height / 2 { 0 } else { 2 } + if x < width / 2 { 0 } else { 1 };
            data.extend_from_slice(&quadrants[q]);
        }
    }
    let options = PngOptions {
        colors: 2,
        compression_level: 6,
    };
    let encoded = compress_png(&data, width, height, options).unwrap();
    let (_, _, pixels) = decode_png(&encoded);
    let distinct_rgb: HashSet<[u8; 3]> = pixels
        .chunks_exact(4)
        .map(|p| [p[0], p[1], p[2]])
        .collect();
    assert!(
        distinct_rgb.len() <= 2,
        "expected at most 2 distinct colors, found {}",
        distinct_rgb.len()
    );
}

#[test]
fn quantizer_size_invariant() {
    let data = vec![7u8; 10 * 10 * 4];
    let buffer = PixelBuffer::from_bytes(&data, 10, 10).unwrap();
    let quantized = quantize_image(&buffer, 4).unwrap();
    assert_eq!(quantized.width(), 10);
    assert_eq!(quantized.height(), 10);
    assert_eq!(quantized.as_raw().len(), 10 * 10 * 4);
}

#[test]
fn png_encoding_is_idempotent() {
    let data: Vec<u8> = (0..16u32 * 16 * 4).map(|i| (i % 251) as u8).collect();
    let options = || PngOptions {
        colors: 255,
        compression_level: 6,
    };
    let first = compress_png(&data, 16, 16, options()).unwrap();
    let second = compress_png(&data, 16, 16, options()).unwrap();
    assert_eq!(first, second);
}

#[test]
fn png_invalid_dimensions() {
    let options = PngOptions {
        colors: 255,
        compression_level: 6,
    };
    let r = compress_png(&[], 0, 4, options);
    assert!(matches!(r, Err(CompressError::InvalidDimensions(0, 4))));
}

#[test]
fn png_invalid_data_size() {
    let data = [0u8; 10];
    let options = PngOptions {
        colors: 255,
        compression_level: 6,
    };
    let r = compress_png(&data, 2, 2, options);
    assert!(matches!(
        r,
        Err(CompressError::InvalidDataSize {
            expected: 16,
            actual: 10
        })
    ));
}

#[test]
fn png_error_on_degenerate_palette_bound() {
    // The quantizer accepts palette ceilings of 2-256 only; a ceiling of 0
    // is a configuration failure and must surface as PngError.
    let data = [0u8; 4];
    let options = PngOptions {
        colors: 0,
        compression_level: 6,
    };
    match compress_png(&data, 1, 1, options) {
        Err(CompressError::PngError(m)) => assert!(m.starts_with("Colors error: ")),
        other => panic!("expected a PngError, got {:?}", other),
    }
    let r1 = compress_png(
        &data,
        1,
        1,
        PngOptions {
            colors: 1,
            compression_level: 6,
        },
    );
    assert!(matches!(r1, Err(CompressError::PngError(_))));
}

#[test]
fn png_options_defaults() {
    let d = PngOptions::default();
    assert_eq!(d.colors, 255);
    assert_eq!(d.compression_level, 6);
    assert_eq!(default_compression_level(), 6);
}
