use graphics::color::Rgb;
use graphics::frame_buffer::{frame_buffer, make_buffer};
use graphics::ppm::{push_decimal, ColorType, EncodeError, NetPBM, NetPBMEncoder};

fn encode(format: NetPBM, image: &[u8], width: u32, height: u32) -> Result<String, EncodeError> {
    let mut encoder = NetPBMEncoder::new(format, Vec::new());
    encoder.encode(image, width, height)?;
    Ok(String::from_utf8(encoder.into_bytes()).unwrap())
}

#[test]
fn test_magic_numbers_and_extensions() {
    let formats = [
        (NetPBM::BitMapAscii, "P1", "pbm"),
        (NetPBM::GrayMapAscii, "P2", "pgm"),
        (NetPBM::PixMapAscii, "P3", "ppm"),
        (NetPBM::BitMapBinary, "P4", "pbm"),
        (NetPBM::GrayMapBinary, "P5", "pgm"),
        (NetPBM::PixMapBinary, "P6", "ppm"),
    ];
    for (format, magic, extension) in formats {
        assert_eq!(format.magic_number(), magic);
        assert_eq!(format.file_extension(), extension);
    }
    assert_eq!(ColorType::BitMap.max_pixel_value(), 1);
    assert_eq!(ColorType::Gray.max_pixel_value(), 255);
    assert_eq!(ColorType::Rgb.max_pixel_value(), 255);
    assert_eq!(ColorType::Gray.samples_per_pixel(), 1);
    assert_eq!(ColorType::Rgb.samples_per_pixel(), 3);
}

#[test]
fn test_decimal_digits() {
    for (n, text) in [(0u64, "0"), (7, "7"), (10, "10"), (255, "255"), (4096, "4096"), (u64::MAX, "18446744073709551615")]
    {
        let mut out = vec![b'#'];
        push_decimal(&mut out, n);
        assert_eq!(String::from_utf8(out).unwrap(), format!("#{}", text));
    }
}

#[test]
fn test_pixmap_encoding() {
    let image = [255, 0, 0, 0, 255, 0, 0, 0, 255, 10, 20, 30, 1, 2, 3, 0, 0, 0];
    assert_eq!(
        encode(NetPBM::PixMapAscii, &image, 3, 2).unwrap(),
        "P3\n3 2\n255\n255 0 0 0 255 0 0 0 255 \n10 20 30 1 2 3 0 0 0 \n"
    );
    assert_eq!(
        encode(NetPBM::PixMapBinary, &image, 2, 3).unwrap(),
        "P6\n2 3\n255\n255 0 0 0 255 0 \n0 0 255 10 20 30 \n1 2 3 0 0 0 \n"
    );
}

#[test]
fn test_graymap_and_bitmap_encoding() {
    let image = [0, 1, 2, 100, 200, 255];
    assert_eq!(encode(NetPBM::GrayMapAscii, &image, 3, 2).unwrap(), "P2\n3 2\n255\n0 1 2 \n100 200 255 \n");
    assert_eq!(encode(NetPBM::GrayMapBinary, &image, 6, 1).unwrap(), "P5\n6 1\n255\n0 1 2 100 200 255 \n");
    assert_eq!(encode(NetPBM::BitMapAscii, &image, 2, 3).unwrap(), "P1\n2 3\n1\n0 1 \n1 1 \n1 1 \n");
    assert_eq!(encode(NetPBM::BitMapBinary, &image, 1, 6).unwrap(), "P4\n1 6\n1\n0 \n1 \n1 \n1 \n1 \n1 \n");
}

#[test]
fn test_images_of_the_wrong_size_are_refused() {
    let image = [1u8; 12];
    assert_eq!(encode(NetPBM::PixMapAscii, &[], 0, 0), Err(EncodeError::EmptyImage));
    assert_eq!(encode(NetPBM::GrayMapAscii, &[], 2, 2), Err(EncodeError::EmptyImage));
    assert_eq!(encode(NetPBM::PixMapAscii, &image, 2, 3), Err(EncodeError::SizeMismatch));
    assert_eq!(encode(NetPBM::PixMapAscii, &image, 0, 3), Err(EncodeError::SizeMismatch));
    assert_eq!(encode(NetPBM::GrayMapAscii, &image, 2, 2), Err(EncodeError::SizeMismatch));
    assert_eq!(encode(NetPBM::BitMapAscii, &image, u32::MAX, u32::MAX), Err(EncodeError::SizeMismatch));
    assert!(encode(NetPBM::PixMapAscii, &image, 2, 2).is_ok());
    assert!(encode(NetPBM::GrayMapAscii, &image, 12, 1).is_ok());

    // A refused image leaves what was written before.
    let mut encoder = NetPBMEncoder::new(NetPBM::GrayMapAscii, vec![b'x']);
    assert_eq!(encoder.encode(&image, 5, 5), Err(EncodeError::SizeMismatch));
    assert_eq!(encoder.bytes(), b"x");
    assert_eq!(encoder.encode(&[7, 8], 2, 1), Ok(()));
    assert_eq!(encoder.bytes(), b"xP2\n2 1\n255\n7 8 \n");
}

#[test]
fn test_a_dumped_frame_is_encoded_row_by_row() {
    let mut frame = frame_buffer(2, 2);
    frame.set_pixel(0, 0, Rgb::from_channels(1, 2, 3));
    frame.set_pixel(1, 1, Rgb::from_channels(254, 255, 0));
    let mut buf = make_buffer(Rgb::channel_count() * 2 * 2);
    assert_eq!(*buf, vec![0u8; 12]);
    frame.dump_frame(&mut buf).expect("Could not write into buffer!");
    assert_eq!(encode(NetPBM::PixMapAscii, &buf, 2, 2).unwrap(), "P3\n2 2\n255\n1 2 3 0 0 0 \n0 0 0 254 255 0 \n");
    assert!(make_buffer(0).is_empty());
}
