use flag_overlay::{blend, decode, encode_png, flag_overlay, stripe_overlay, BlendFactor, ImageBuffer, OverlayError, PrideFlag, Rgba};

#[test]
fn png_round_trip_keeps_pixels() {
    let data: Vec<u8> = (0..(6 * 4 * 4)).map(|i| (i * 13 % 256) as u8).collect();
    let img = ImageBuffer::from_raw(6, 4, data.clone()).unwrap();
    let file = encode_png(&img).unwrap();
    assert_eq!(&file[..8], &[0x89, b'P', b'N', b'G', 0x0D, 0x0A, 0x1A, 0x0A]);
    let back = decode(&file).unwrap();
    assert_eq!((back.width(), back.height()), (6, 4));
    assert_eq!(back.as_bytes(), &data);
    let again = decode(&encode_png(&back).unwrap()).unwrap();
    assert_eq!(again.as_bytes(), &data);
}

#[test]
fn garbage_does_not_decode() {
    assert_eq!(decode(&[1, 2, 3, 4, 5]).unwrap_err(), OverlayError::DecodeFailed);
    assert_eq!(decode(&[]).unwrap_err(), OverlayError::DecodeFailed);
}

#[test]
fn stripes_follow_rows() {
    let red = Rgba { r: 255, g: 0, b: 0, a: 255 };
    let blue = Rgba { r: 0, g: 0, b: 255, a: 128 };
    let img = stripe_overlay(&vec![red, blue], 2, 4);
    let mut expected = Vec::new();
    for row in 0..4 {
        let c = if row < 2 { red } else { blue };
        for _ in 0..2 {
            expected.extend_from_slice(&[c.r, c.g, c.b, c.a]);
        }
    }
    assert_eq!(img.as_bytes(), &expected);
}

#[test]
fn rainbow_rows_pick_stripes() {
    let img = flag_overlay(PrideFlag::Rainbow, 1, 6);
    assert_eq!(
        img.as_bytes(),
        &vec![
            0xE4, 0x03, 0x03, 255, 0xFF, 0x8C, 0x00, 255, 0xFF, 0xED, 0x00, 255, 0x00, 0x80, 0x26, 255,
            0x24, 0x40, 0x8E, 255, 0x73, 0x29, 0x82, 255,
        ]
    );
    // two rows over six stripes: the first and the fourth stripe
    let two = flag_overlay(PrideFlag::Rainbow, 1, 2);
    assert_eq!(two.as_bytes(), &vec![0xE4, 0x03, 0x03, 255, 0x00, 0x80, 0x26, 255]);
}

#[test]
fn every_flag_has_stripes() {
    let all = PrideFlag::all();
    assert_eq!(all.len(), 7);
    for f in all {
        assert!(!f.colors().is_empty());
        let img = flag_overlay(f, 3, 2);
        assert_eq!(img.as_bytes().len(), 24);
    }
    assert!(flag_overlay(PrideFlag::Pansexual, 0, 5).as_bytes().is_empty());
}

#[test]
fn overlay_blends_over_decoded_image() {
    let img = ImageBuffer::from_raw(1, 3, vec![0, 0, 0, 255, 100, 100, 100, 255, 200, 200, 200, 255]).unwrap();
    let decoded = decode(&encode_png(&img).unwrap()).unwrap();
    let flag = flag_overlay(PrideFlag::Pansexual, decoded.width(), decoded.height());
    let out = blend(&decoded, &flag, BlendFactor::new(1, 1).unwrap()).unwrap();
    assert_eq!(out.as_bytes(), flag.as_bytes());
}
