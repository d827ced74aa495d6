use scraen::encode::{clamp_luma, decode_body, encode_body, encode_row};
use scraen::gray::GrayImage;

fn image_from_rows(rows: Vec<Vec<u8>>) -> GrayImage {
    let r = rows.len();
    let c = rows[0].len();
    let mut img = GrayImage::new(r, c, 0);
    for (ri, row) in rows.iter().enumerate() {
        assert_eq!(row.len(), c);
        for (ci, v) in row.iter().enumerate() {
            img.set(ri, ci, *v);
        }
    }
    img
}

#[test]
fn uniform_4x4_panel_body() {
    // A 4x4 panel showing uniform gray 128: each row is four 128 bytes,
    // separated by single zeros, 19 bytes in all, no trailing separator.
    let img = GrayImage::new(4, 4, 128);
    let body = encode_body(&img);
    let expected: Vec<u8> = vec![
        128, 128, 128, 128, 0,
        128, 128, 128, 128, 0,
        128, 128, 128, 128, 0,
        128, 128, 128, 128,
    ];
    assert_eq!(body, expected);
    assert_eq!(body.len(), 19);
}

#[test]
fn serpentine_reverses_even_rows() {
    let img = image_from_rows(vec![vec![1, 2, 3], vec![4, 5, 6]]);
    let body = encode_body(&img);
    assert_eq!(body, vec![3, 2, 1, 0, 4, 5, 6]);
}

#[test]
fn encode_row_orders() {
    let img = image_from_rows(vec![vec![1, 2, 3], vec![4, 5, 6], vec![7, 8, 9]]);
    assert_eq!(encode_row(&img, 0), vec![3, 2, 1]);
    assert_eq!(encode_row(&img, 1), vec![4, 5, 6]);
    assert_eq!(encode_row(&img, 2), vec![9, 8, 7]);
}

#[test]
fn single_pixel_body_has_no_separator() {
    let img = GrayImage::new(1, 1, 42);
    assert_eq!(encode_body(&img), vec![42]);
}

#[test]
fn serpentine_round_trip_synthetic() {
    // Pixel (r, c) = 10 * r + c; encoding then un-reversing even rows and
    // dropping separators recovers every row.
    let mut img = GrayImage::new(4, 4, 0);
    for r in 0..4 {
        for c in 0..4 {
            img.set(r, c, (10 * r + c) as u8);
        }
    }
    let body = encode_body(&img);
    let back = decode_body(&body, 4, 4).expect("body length must match");
    for r in 0..4 {
        for c in 0..4 {
            assert_eq!(back.get(r, c), (10 * r + c) as u8);
        }
    }
}

#[test]
fn round_trip_non_square() {
    let img = image_from_rows(vec![vec![9, 8, 7, 6, 5], vec![0, 1, 2, 3, 4], vec![20, 40, 60, 80, 100]]);
    let body = encode_body(&img);
    let back = decode_body(&body, 3, 5).expect("body length must match");
    for r in 0..3 {
        for c in 0..5 {
            assert_eq!(back.get(r, c), img.get(r, c));
        }
    }
}

#[test]
fn decode_rejects_wrong_length() {
    let body: Vec<u8> = vec![0; 18];
    assert!(decode_body(&body, 4, 4).is_none());
    let body: Vec<u8> = vec![0; 20];
    assert!(decode_body(&body, 4, 4).is_none());
    let exact: Vec<u8> = vec![0; 19];
    assert!(decode_body(&exact, 4, 4).is_some());
}

#[test]
fn clamp_boundaries() {
    assert_eq!(clamp_luma(0), 0);
    assert_eq!(clamp_luma(1), 1);
    assert_eq!(clamp_luma(199), 199);
    assert_eq!(clamp_luma(200), 200);
    assert_eq!(clamp_luma(201), 200);
    assert_eq!(clamp_luma(255), 200);
}

#[test]
fn bright_pixels_clamped_in_body() {
    let img = image_from_rows(vec![vec![255, 0], vec![201, 200]]);
    let body = encode_body(&img);
    assert_eq!(body, vec![0, 200, 0, 200, 200]);
    for b in body {
        assert!(b <= 200);
    }
}

#[test]
fn identical_image_gives_identical_bytes() {
    let a = GrayImage::new(8, 8, 33);
    let b = GrayImage::new(8, 8, 33);
    assert_eq!(encode_body(&a), encode_body(&b));
    assert_eq!(encode_body(&a), encode_body(&a));
}
