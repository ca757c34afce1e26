use flag_overlay::{blend, blend_chunked, BlendFactor, ImageBuffer, OverlayError};

fn image(width: u32, height: u32, data: Vec<u8>) -> ImageBuffer {
    ImageBuffer::from_raw(width, height, data).unwrap()
}

fn gradient(width: u32, height: u32, seed: u32) -> ImageBuffer {
    let n = (width * height * 4) as usize;
    let data: Vec<u8> = (0..n).map(|i| ((i as u32 * 37 + seed * 11) % 256) as u8).collect();
    image(width, height, data)
}

#[test]
fn half_blend_of_one_pixel_truncates() {
    let img = image(1, 1, vec![100, 150, 200, 255]);
    let flag = image(1, 1, vec![0, 0, 0, 0]);
    let half = BlendFactor::new(1, 2).unwrap();
    let out = blend(&img, &flag, half).unwrap();
    assert_eq!(out.as_bytes(), &vec![50, 75, 100, 127]);
    assert_eq!(out.width(), 1);
    assert_eq!(out.height(), 1);
}

#[test]
fn one_third_blend_exact_value() {
    let img = image(1, 1, vec![30, 0, 255, 10]);
    let flag = image(1, 1, vec![90, 255, 0, 11]);
    let third = BlendFactor::new(1, 3).unwrap();
    let out = blend(&img, &flag, third).unwrap();
    // 30*2/3 + 90/3 = 50; 255/3 = 85; 255*2/3 = 170; (20 + 11) / 3 = 10
    assert_eq!(out.as_bytes(), &vec![50, 85, 170, 10]);
}

#[test]
fn factor_zero_keeps_image() {
    let img = gradient(5, 3, 1);
    let flag = gradient(5, 3, 9);
    for den in [1u32, 2, 7, 1000] {
        let zero = BlendFactor::new(0, den).unwrap();
        let out = blend(&img, &flag, zero).unwrap();
        assert_eq!(out.as_bytes(), img.as_bytes());
    }
}

#[test]
fn factor_one_gives_flag() {
    let img = gradient(4, 4, 2);
    let flag = gradient(4, 4, 5);
    for den in [1u32, 3, 255, 10000] {
        let one = BlendFactor::new(den, den).unwrap();
        let out = blend(&img, &flag, one).unwrap();
        assert_eq!(out.as_bytes(), flag.as_bytes());
    }
}

#[test]
fn mismatched_sizes_are_refused() {
    let pairs = [((2, 3), (3, 2)), ((1, 1), (1, 2)), ((4, 4), (5, 4)), ((0, 3), (0, 4)), ((3, 0), (0, 3))];
    let half = BlendFactor::new(1, 2).unwrap();
    for ((w1, h1), (w2, h2)) in pairs {
        let img = gradient(w1, h1, 3);
        let flag = gradient(w2, h2, 4);
        assert_eq!(blend(&img, &flag, half).unwrap_err(), OverlayError::DimensionMismatch);
        assert_eq!(blend(&flag, &img, half).unwrap_err(), OverlayError::DimensionMismatch);
    }
}

#[test]
fn every_chunk_size_gives_the_same_bytes() {
    let img = gradient(7, 5, 6);
    let flag = gradient(7, 5, 8);
    let f = BlendFactor::new(3, 10).unwrap();
    let whole = blend_chunked(&img, &flag, f, 35).unwrap();
    for n in 1..=35usize {
        let out = blend_chunked(&img, &flag, f, n).unwrap();
        assert_eq!(out.as_bytes(), whole.as_bytes());
    }
    let large = blend_chunked(&img, &flag, f, usize::MAX).unwrap();
    assert_eq!(large.as_bytes(), whole.as_bytes());
    assert_eq!(blend(&img, &flag, f).unwrap().as_bytes(), whole.as_bytes());
}

#[test]
fn empty_image_blends_to_empty() {
    let img = image(0, 0, Vec::new());
    let f = BlendFactor::new(1, 2).unwrap();
    let out = blend(&img, &img, f).unwrap();
    assert!(out.as_bytes().is_empty());
}

#[test]
fn blend_factor_bounds() {
    assert_eq!(BlendFactor::new(1, 0).unwrap_err(), OverlayError::InvalidBlendFactor);
    assert_eq!(BlendFactor::new(0, 0).unwrap_err(), OverlayError::InvalidBlendFactor);
    assert_eq!(BlendFactor::new(3, 2).unwrap_err(), OverlayError::InvalidBlendFactor);
    let f = BlendFactor::new(2, 2).unwrap();
    assert_eq!((f.numerator(), f.denominator()), (2, 2));
    let g = BlendFactor::new(u32::MAX, u32::MAX).unwrap();
    let img = image(1, 1, vec![255, 255, 0, 0]);
    let flag = image(1, 1, vec![255, 0, 255, 0]);
    assert_eq!(blend(&img, &flag, g).unwrap().as_bytes(), &vec![255, 0, 255, 0]);
}

#[test]
fn buffer_length_is_checked() {
    assert_eq!(ImageBuffer::from_raw(2, 2, vec![0; 15]).unwrap_err(), OverlayError::BufferLength);
    assert_eq!(ImageBuffer::from_raw(2, 2, vec![0; 17]).unwrap_err(), OverlayError::BufferLength);
    let img = ImageBuffer::from_raw(2, 2, vec![7; 16]).unwrap();
    assert_eq!(img.clone().into_bytes(), vec![7; 16]);
}

#[test]
fn error_messages_are_distinct() {
    let all = [
        OverlayError::DimensionMismatch,
        OverlayError::InvalidBlendFactor,
        OverlayError::BufferLength,
        OverlayError::Busy,
        OverlayError::SpawnFailed,
        OverlayError::ComputationFailed,
        OverlayError::DecodeFailed,
        OverlayError::EncodeFailed,
    ];
    let messages: Vec<String> = all.iter().map(|e| e.message()).collect();
    for i in 0..messages.len() {
        for j in (i + 1)..messages.len() {
            assert_ne!(messages[i], messages[j]);
        }
    }
}
