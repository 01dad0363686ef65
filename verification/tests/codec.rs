use avsync::decode::frame_from_encoded;
use avsync::samples::{bytes_to_samples, sample_from_le, sample_to_unsigned};

#[test]
fn samples_decode_little_endian_signed() {
    assert_eq!(sample_from_le(0x34, 0x12), 0x1234);
    assert_eq!(sample_from_le(0xFF, 0xFF), -1);
    assert_eq!(sample_from_le(0x00, 0x80), i16::MIN);
    assert_eq!(sample_from_le(0xFF, 0x7F), i16::MAX);
    assert_eq!(sample_from_le(0, 0), 0);
}

#[test]
fn chunks_convert_two_bytes_per_sample() {
    let out = bytes_to_samples(&[0x34, 0x12, 0xFF, 0xFF, 0x01]);
    assert_eq!(out, vec![0x1234, -1]);
    assert!(bytes_to_samples(&[]).is_empty());
    assert!(bytes_to_samples(&[0x55]).is_empty());
}

#[test]
fn unsigned_conversion_centres_silence() {
    assert_eq!(sample_to_unsigned(0), 32768);
    assert_eq!(sample_to_unsigned(i16::MIN), 0);
    assert_eq!(sample_to_unsigned(i16::MAX), 65535);
    assert_eq!(sample_to_unsigned(-1), 32767);
}

#[test]
fn encoded_image_becomes_a_well_formed_frame() {
    // A 2x1 image: one red pixel, one translucent green pixel.
    let mut img = image::RgbaImage::new(2, 1);
    img.put_pixel(0, 0, image::Rgba([255, 0, 0, 255]));
    img.put_pixel(1, 0, image::Rgba([0, 255, 0, 128]));
    let mut png: Vec<u8> = Vec::new();
    image::DynamicImage::ImageRgba8(img)
        .write_to(&mut std::io::Cursor::new(&mut png), image::ImageFormat::Png)
        .unwrap();

    let frame = frame_from_encoded(&png, 42).unwrap();
    assert_eq!(frame.width, 2);
    assert_eq!(frame.height, 1);
    assert_eq!(frame.pts_us, 42);
    assert_eq!(frame.data, vec![255, 0, 0, 255, 0, 255, 0, 128]);
}

#[test]
fn undecodable_bytes_yield_no_frame() {
    assert!(frame_from_encoded(&[], 0).is_none());
    assert!(frame_from_encoded(b"not an image at all", 0).is_none());
}
