use scraen::gray::GrayImage;
use scraen::resample::gray_from_rgba;
use scraen::slot::FrameSlot;

#[test]
fn luma_extraction_exact_values() {
    // One 2x2 RGBA capture: white, black, pure red, pure green.
    let rgba: Vec<u8> = vec![
        255, 255, 255, 255,
        0, 0, 0, 255,
        255, 0, 0, 255,
        0, 255, 0, 255,
    ];
    let img = gray_from_rgba(&rgba, 2, 2);
    assert_eq!((img.rows(), img.cols()), (2, 2));
    assert_eq!(img.get(0, 0), 255);
    assert_eq!(img.get(0, 1), 0);
    assert_eq!(img.get(1, 0), (2126 * 255 / 10000) as u8);
    assert_eq!(img.get(1, 1), (7152 * 255 / 10000) as u8);
}

#[test]
fn luma_ignores_alpha() {
    let opaque = gray_from_rgba(&vec![90, 60, 30, 255], 1, 1);
    let clear = gray_from_rgba(&vec![90, 60, 30, 0], 1, 1);
    assert_eq!(opaque.get(0, 0), clear.get(0, 0));
}

#[test]
fn try_read_idempotent_without_new_capture() {
    // Two reads with no commit in between return the same image, bit for
    // bit; an empty slot stays empty.
    let mut slot = FrameSlot::new();
    assert!(slot.try_read().is_none());
    assert!(slot.try_read().is_none());
    let mut img = GrayImage::new(2, 2, 9);
    img.set(1, 0, 55);
    slot.commit(img);
    let a = slot.try_read().as_ref().unwrap();
    let first: Vec<u8> = vec![a.get(0, 0), a.get(0, 1), a.get(1, 0), a.get(1, 1)];
    let b = slot.try_read().as_ref().unwrap();
    let second: Vec<u8> = vec![b.get(0, 0), b.get(0, 1), b.get(1, 0), b.get(1, 1)];
    assert_eq!(first, second);
    assert_eq!(second, vec![9, 9, 55, 9]);
}
