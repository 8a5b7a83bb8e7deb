use std::io::Cursor;

use image::{ImageFormat, RgbaImage};
use trayer::icon::{build_tray_icon, icon_from_decoded, rotate_pixels, IconError};

#[test]
fn each_pixel_is_rotated_one_byte_right() {
    let mut data = vec![1u8, 2, 3, 4, 5, 6, 7, 8];
    rotate_pixels(&mut data);
    assert_eq!(data, vec![4, 1, 2, 3, 8, 5, 6, 7]);
}

#[test]
fn rotation_of_empty_buffer_is_empty() {
    let mut data: Vec<u8> = Vec::new();
    rotate_pixels(&mut data);
    assert!(data.is_empty());
}

#[test]
fn decoded_buffer_becomes_an_argb_icon() {
    let r = icon_from_decoded(2, 1, vec![10, 20, 30, 40, 50, 60, 70, 80]);
    let icon = r.expect("well-formed buffer");
    assert_eq!(icon.width, 2);
    assert_eq!(icon.height, 1);
    assert_eq!(icon.data, vec![40, 10, 20, 30, 80, 50, 60, 70]);
}

#[test]
fn buffer_of_wrong_size_is_rejected() {
    assert_eq!(
        icon_from_decoded(2, 1, vec![1, 2, 3]),
        Err(IconError::MalformedBuffer)
    );
}

#[test]
fn dimension_beyond_signed_range_is_rejected() {
    assert_eq!(
        icon_from_decoded(u32::MAX, 1, vec![1, 2, 3, 4]),
        Err(IconError::OversizedDimensions)
    );
}

#[test]
fn undecodable_bytes_fail_with_decode_error() {
    assert_eq!(
        build_tray_icon(b"certainly not a png"),
        Err(IconError::DecodeFailed)
    );
}

#[test]
fn png_asset_decodes_and_converts_to_argb() {
    // A 2x2 RGBA image with four distinct pixels, encoded to PNG in memory.
    let raw: Vec<u8> = vec![
        255, 0, 0, 10, // red-ish
        0, 255, 0, 20, // green-ish
        0, 0, 255, 30, // blue-ish
        9, 8, 7, 40,
    ];
    let img = RgbaImage::from_raw(2, 2, raw.clone()).expect("buffer fits 2x2");
    let mut png: Vec<u8> = Vec::new();
    img.write_to(&mut Cursor::new(&mut png), ImageFormat::Png)
        .expect("png encoding");

    let icon = build_tray_icon(&png).expect("valid image");
    assert_eq!(icon.width, 2);
    assert_eq!(icon.height, 2);
    let expected: Vec<u8> = vec![
        10, 255, 0, 0, //
        20, 0, 255, 0, //
        30, 0, 0, 255, //
        40, 9, 8, 7,
    ];
    assert_eq!(icon.data, expected);
}
