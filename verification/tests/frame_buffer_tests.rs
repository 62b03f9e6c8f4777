use graphics::color::Rgb;
use graphics::frame_buffer::{frame_buffer, BottomLeft, FrameBuffer};

#[test]
fn test_frame_buffer_should_correctly_report_dimensions() {
    let width = 128;
    let height = 128;
    let buf = frame_buffer(width, height);

    assert_eq!(buf.width(), width);
    assert_eq!(buf.height(), height);

    let mut lines = buf.lines();
    while let Some(line) = lines.next() {
        assert_eq!(line.len(), buf.width());
    }
}

#[test]
fn test_frame_buffer_should_be_zero_after_initialization() {
    let width = 128;
    let height = 128;
    let buf = frame_buffer(width, height);
    let zero = Rgb::from_channels(0, 0, 0);

    let mut lines = buf.lines();
    while let Some(line) = lines.next() {
        for pixel in line {
            assert_eq!(pixel, &zero);
        }
    }
}

#[test]
fn test_dump_frame() {
    let width = 512;
    let height = 512;
    let mut buf = frame_buffer(width, height);
    let color = Rgb::from_channels(80, 90, 100);

    for i in 0..buf.height() {
        for j in 0..buf.width() {
            buf.set_pixel(i, j, color);
        }
    }

    let mut dump_buf = Vec::with_capacity(3 * width * height);

    buf.dump_frame(&mut dump_buf);

    for chunk in dump_buf.chunks(3) {
        let rgb = Rgb::from_channels(chunk[0], chunk[1], chunk[2]);

        assert_eq!(rgb, color);
    }
}

#[test]
fn test_topleft_frame_buffer_should_not_panic_during_iteration() {
    let width = 128;
    let height = 128;
    let mut buf = frame_buffer(width, height);
    let color = Rgb::from_channels(80, 90, 100);

    for i in 0..buf.height() {
        for j in 0..buf.width() {
            buf.set_pixel(i, j, color);
        }
    }

    let mut lines = buf.lines();
    while let Some(_line) = lines.next() {
        // No panics should occur.
        assert!(true);
    }
}

#[test]
fn test_topleft_frame_buffer_and_bottomright_frame_buffer_should_be_identical_up_to_ordering_of_rows() {
    let width = 128;
    let height = 128;

    // Both buffers are walked row by row; the walk hands out shared rows,
    // so the pixels keep the colour they were initialized with.
    let top_left = frame_buffer(width, height);
    let mut i = 0;
    let mut lines = top_left.lines();
    while let Some(line) = lines.next() {
        let new_rgb = Rgb::from_channels(i as u8, i as u8, i as u8);
        for ref mut old_rgb in line {
            *old_rgb = &new_rgb
        }
        i += 1;
    }

    let mut bottom_left = FrameBuffer::<BottomLeft>::new(width, height);
    bottom_left.initialize();
    let mut i = 0;
    let mut lines = bottom_left.lines();
    while let Some(line) = lines.next() {
        let new_rgb = Rgb::from_channels(i as u8, i as u8, i as u8);
        for ref mut old_rgb in line {
            *old_rgb = &new_rgb;
        }
        i += 1;
    }

    // TopLeft and BottomLeft type should be equal with the rows flipped.
    assert_eq!(*top_left, bottom_left);
}

#[test]
fn test_dump_fails_without_writing_when_the_buffer_is_a_byte_short() {
    let width = 5;
    let height = 3;
    let mut buf = frame_buffer(width, height);
    buf.initialize_with(Rgb::from_channels(80, 90, 100));

    let mut short = vec![7u8; 3 * width * height - 1];
    assert_eq!(buf.dump_frame(&mut short), None);
    assert!(short.iter().all(|byte| *byte == 7));
    let mut empty: Vec<u8> = Vec::new();
    assert_eq!(buf.dump_frame(&mut empty), None);
}

#[test]
fn test_dump_round_trips_when_the_buffer_is_just_large_enough() {
    let width = 5;
    let height = 3;
    let mut buf = frame_buffer(width, height);
    for row in 0..height {
        for col in 0..width {
            buf.set_pixel(row, col, Rgb::from_channels(row as u8, col as u8, (16 * row + col) as u8));
        }
    }

    let mut exact = vec![7u8; 3 * width * height];
    assert_eq!(buf.dump_frame(&mut exact), Some(3 * width * height));
    for row in 0..height {
        for col in 0..width {
            let at = 3 * (width * row + col);
            let rgb = Rgb::from_channels(exact[at], exact[at + 1], exact[at + 2]);
            assert_eq!(rgb, buf.get_pixel(row, col));
        }
    }
    // Row 0 comes first.
    assert_eq!(&exact[..6], &[0, 0, 0, 0, 1, 1]);

    // What lies behind the picture stays as it was.
    let mut longer = vec![7u8; 3 * width * height + 2];
    assert_eq!(buf.dump_frame(&mut longer), Some(3 * width * height));
    assert_eq!(&longer[..3 * width * height], &exact[..]);
    assert_eq!(&longer[3 * width * height..], &[7, 7]);
}

#[test]
fn test_dump_of_an_empty_frame_writes_nothing() {
    let buf = frame_buffer(0, 9);
    let mut out = vec![1u8, 2, 3];
    assert_eq!(buf.dump_frame(&mut out), Some(0));
    assert_eq!(out, vec![1, 2, 3]);
    assert_eq!(buf.shape(), (0, 9));
    let mut none: Vec<u8> = Vec::new();
    assert_eq!(frame_buffer(4, 0).dump_frame(&mut none), Some(0));
}

#[test]
fn test_buffers_of_different_origin_are_compared_top_row_to_top_row() {
    let width = 4;
    let height = 3;
    let mut top_left = frame_buffer(width, height);
    let mut bottom_left = FrameBuffer::<BottomLeft>::new(width, height);
    // Row i from the top in one is row height - 1 - i from the bottom in the other.
    for i in 0..height {
        for col in 0..width {
            let rgb = Rgb::from_channels(i as u8 + 1, col as u8, 0);
            top_left.set_pixel(i, col, rgb);
            bottom_left.set_pixel(height - 1 - i, col, rgb);
        }
    }
    assert_eq!(*top_left, bottom_left);
    assert_eq!(bottom_left, *top_left);
    assert_eq!(top_left.to_bottom_left(), bottom_left);
    assert_eq!(bottom_left.to_top_left(), *top_left);
    assert_eq!(top_left.row(0), bottom_left.row(height - 1));

    // The same storage order is a different picture.
    let mut same_storage = FrameBuffer::<BottomLeft>::new(width, height);
    for i in 0..height {
        for col in 0..width {
            same_storage.set_pixel(i, col, top_left.get_pixel(i, col));
        }
    }
    assert_ne!(*top_left, same_storage);
    assert_ne!(same_storage, bottom_left);

    // One pixel or the size apart.
    bottom_left.set_pixel(0, 0, Rgb::from_channels(9, 9, 9));
    assert_ne!(*top_left, bottom_left);
    assert_ne!(*top_left, FrameBuffer::<BottomLeft>::new(width, height + 1));
    assert_ne!(*frame_buffer(0, 2), *frame_buffer(0, 3));
    assert_eq!(*frame_buffer(0, 2), FrameBuffer::<BottomLeft>::new(0, 2));
}

#[test]
fn test_lines_are_handed_out_from_row_zero_on() {
    let mut buf = frame_buffer(2, 3);
    for row in 0..3 {
        buf.set_pixel(row, 1, Rgb::from_channels(row as u8, 0, 0));
    }
    let mut lines = buf.lines();
    for row in 0..3 {
        let line = lines.next().unwrap();
        assert_eq!(line, buf.row(row));
        assert_eq!(line[1].r(), row as u8);
    }
    assert!(lines.next().is_none());
    assert!(lines.next().is_none());
    assert!(frame_buffer(3, 0).lines().next().is_none());
}
