use eink_display::frame::{BinaryColor, DrawError, Frame, FrameLengthError, Pixel};
use eink_display::panel::{BUFFER_SIZE, DISPLAY_HEIGHT, DISPLAY_WIDTH, DISPLAY_WIDTH_BYTES};

fn index_of(x: usize, y: usize) -> (usize, u8) {
    let row = DISPLAY_HEIGHT as usize - x - 1;
    (row * DISPLAY_WIDTH_BYTES + y / 8, 7 - (y % 8) as u8)
}

#[test]
fn buffer_length_is_width_bytes_times_height() {
    let frame = Frame::new();
    assert_eq!(frame.as_bytes().len(), (DISPLAY_WIDTH as usize / 8) * DISPLAY_HEIGHT as usize);
    assert_eq!(BUFFER_SIZE, 48000);
    assert_eq!(frame.size(), (800, 480));
}

#[test]
fn new_frame_has_every_bit_set() {
    let frame = Frame::new();
    assert!(frame.as_bytes().iter().all(|b| *b == 0xFF));
    let default = Frame::default();
    assert_eq!(default.as_bytes(), frame.as_bytes());
}

#[test]
fn from_bytes_takes_exactly_one_frame() {
    let ok = Frame::from_bytes(&vec![0x5A; BUFFER_SIZE]).unwrap();
    assert!(ok.as_bytes().iter().all(|b| *b == 0x5A));
    assert_eq!(
        Frame::from_bytes(&vec![0; BUFFER_SIZE - 1]).err(),
        Some(FrameLengthError { len: BUFFER_SIZE - 1 })
    );
    assert_eq!(
        Frame::from_bytes(&vec![0; BUFFER_SIZE + 1]).err(),
        Some(FrameLengthError { len: BUFFER_SIZE + 1 })
    );
    assert_eq!(Frame::from_bytes(&[]).err(), Some(FrameLengthError { len: 0 }));
}

#[test]
fn dark_pixel_sets_its_bit() {
    let mut frame = Frame::from_bytes(&vec![0; BUFFER_SIZE]).unwrap();
    assert_eq!(frame.draw_pixel(0, 0, BinaryColor::Off), Ok(()));
    // Row 479 of the RAM, first byte, most significant bit.
    assert_eq!(frame.as_bytes()[47900], 0x80);
    assert_eq!(frame.as_bytes().iter().filter(|b| **b != 0).count(), 1);
}

#[test]
fn light_pixel_clears_its_bit() {
    let mut frame = Frame::new();
    assert_eq!(frame.draw_pixel(10, 13, BinaryColor::On), Ok(()));
    // Row 480 - 10 - 1 = 469, byte 13 / 8 = 1, bit 7 - 5 = 2.
    assert_eq!(frame.as_bytes()[46901], 0xFB);
    assert_eq!(frame.as_bytes().iter().filter(|b| **b != 0xFF).count(), 1);
}

#[test]
fn every_addressable_pixel_sets_exactly_one_bit() {
    for &(x, y) in &[(0usize, 0usize), (479, 479), (1, 7), (200, 8), (479, 0), (0, 479), (123, 321)] {
        let mut frame = Frame::from_bytes(&vec![0; BUFFER_SIZE]).unwrap();
        frame.draw_pixel(x as i32, y as i32, BinaryColor::Off).unwrap();
        let (index, bit) = index_of(x, y);
        let ones: u32 = frame.as_bytes().iter().map(|b| b.count_ones()).sum();
        assert_eq!(ones, 1);
        assert_eq!(frame.as_bytes()[index], 1 << bit);
        frame.draw_pixel(x as i32, y as i32, BinaryColor::On).unwrap();
        assert!(frame.as_bytes().iter().all(|b| *b == 0));
    }
}

#[test]
fn opposite_colours_restore_the_bit() {
    let mut frame = Frame::new();
    let before = frame.as_bytes().to_vec();
    frame.draw_pixel(37, 250, BinaryColor::On).unwrap();
    assert_ne!(frame.as_bytes(), &before[..]);
    frame.draw_pixel(37, 250, BinaryColor::Off).unwrap();
    assert_eq!(frame.as_bytes(), &before[..]);
}

#[test]
fn out_of_bounds_pixels_are_refused() {
    let mut frame = Frame::new();
    for &(x, y) in &[(800, 0), (0, 480), (800, 480), (-1, 0), (0, -1), (i32::MAX, 3), (3, i32::MIN)] {
        assert_eq!(frame.draw_pixel(x, y, BinaryColor::Off), Err(DrawError::OutOfBounds));
    }
    assert!(frame.as_bytes().iter().all(|b| *b == 0xFF));
}

#[test]
fn rows_past_the_mapped_height_are_refused() {
    let mut frame = Frame::new();
    assert_eq!(frame.draw_pixel(480, 0, BinaryColor::On), Err(DrawError::OutOfBounds));
    assert_eq!(frame.draw_pixel(799, 479, BinaryColor::On), Err(DrawError::OutOfBounds));
    assert!(frame.as_bytes().iter().all(|b| *b == 0xFF));
}

#[test]
fn draw_iter_draws_in_order() {
    let mut frame = Frame::new();
    let pixels = [
        Pixel { x: 5, y: 5, color: BinaryColor::On },
        Pixel { x: 6, y: 5, color: BinaryColor::On },
        Pixel { x: 5, y: 5, color: BinaryColor::Off },
    ];
    assert_eq!(frame.draw_iter(&pixels), Ok(()));
    let (a, abit) = index_of(5, 5);
    let (b, bbit) = index_of(6, 5);
    assert_eq!(frame.as_bytes()[a], 0xFF);
    assert_eq!(frame.as_bytes()[b], !(1u8 << bbit));
    assert_eq!(abit, bbit);
}

#[test]
fn draw_iter_stops_at_the_first_bad_pixel() {
    let mut frame = Frame::new();
    let pixels = [
        Pixel { x: 1, y: 1, color: BinaryColor::On },
        Pixel { x: 900, y: 1, color: BinaryColor::On },
        Pixel { x: 2, y: 2, color: BinaryColor::On },
    ];
    assert_eq!(frame.draw_iter(&pixels), Err(DrawError::OutOfBounds));
    let (first, bit) = index_of(1, 1);
    let (third, _) = index_of(2, 2);
    assert_eq!(frame.as_bytes()[first], !(1u8 << bit));
    assert_eq!(frame.as_bytes()[third], 0xFF);
    assert_eq!(frame.draw_iter(&[]), Ok(()));
}
