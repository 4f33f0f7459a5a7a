use epd_datafuri::color::{Color, GrayLevel};
use epd_datafuri::graphics::display290_gray4_mfgn::Display2in9Gray2;
use epd_datafuri::graphics::display290_mono::{Display2in9Mono, HEIGHT, WIDTH};
use epd_datafuri::graphics::{
    buffer_len, drawing_size, find_position, find_rotation, outside_display, Display, DisplayRotation,
};

const ROTATIONS: [DisplayRotation; 4] = [
    DisplayRotation::Rotate0,
    DisplayRotation::Rotate90,
    DisplayRotation::Rotate180,
    DisplayRotation::Rotate270,
];

#[test]
fn buffer_clear() {
    let mut display = Display2in9Mono::new();

    for &byte in display.buffer().iter() {
        assert_eq!(byte, Color::White.get_byte_value());
    }

    display.clear_buffer(Color::Black);

    for &byte in display.buffer().iter() {
        assert_eq!(byte, Color::Black.get_byte_value());
    }
}

#[test]
fn rotation_overflow() {
    let width = WIDTH as u32;
    let height = HEIGHT as u32;
    test_rotation_overflow(width, height, DisplayRotation::Rotate0);
    test_rotation_overflow(width, height, DisplayRotation::Rotate90);
    test_rotation_overflow(width, height, DisplayRotation::Rotate180);
    test_rotation_overflow(width, height, DisplayRotation::Rotate270);
}

fn test_rotation_overflow(width: u32, height: u32, rotation: DisplayRotation) {
    let max_value = width.div_ceil(8) * height;
    for x in 0..(width + height) {
        for y in 0..u32::MAX {
            if outside_display(x as i32, y as i32, width, height, rotation) {
                break;
            } else {
                let (idx, _) = find_position(x, y, width, height, rotation);
                assert!(idx < max_value, "{idx} !< {max_value}",);
            }
        }
    }
}

#[test]
fn graphics_rotation_0() {
    let mut display = Display2in9Mono::new();
    display.set_rotation(DisplayRotation::Rotate0);

    // a line from (0, 0) to (7, 0) in black, one pixel wide
    for x in 0..=7 {
        display.draw_helper(WIDTH as u32, HEIGHT as u32, x, 0, Color::Black);
    }

    let buffer = display.buffer();
    assert_eq!(buffer[0], Color::Black.get_byte_value());

    for &byte in buffer.iter().skip(1) {
        assert_eq!(byte, Color::White.get_byte_value());
    }
}

#[test]
fn buffer_len_of_panel() {
    assert_eq!(buffer_len(128, 296), 4736);
    assert_eq!(buffer_len(296, 128), 37 * 128);
    assert_eq!(buffer_len(1, 1), 1);
    assert_eq!(buffer_len(9, 2), 4);
}

#[test]
fn outside_display_edges() {
    let (w, h) = (128u32, 296u32);
    assert!(outside_display(-1, 0, w, h, DisplayRotation::Rotate0));
    assert!(outside_display(0, -1, w, h, DisplayRotation::Rotate0));
    assert!(!outside_display(127, 295, w, h, DisplayRotation::Rotate0));
    assert!(outside_display(128, 0, w, h, DisplayRotation::Rotate0));
    assert!(outside_display(0, 296, w, h, DisplayRotation::Rotate180));
    assert!(!outside_display(295, 127, w, h, DisplayRotation::Rotate90));
    assert!(outside_display(127, 295, w, h, DisplayRotation::Rotate270));
    assert!(outside_display(296, 0, w, h, DisplayRotation::Rotate270));
    assert!(outside_display(0, 128, w, h, DisplayRotation::Rotate90));
}

#[test]
fn rotation_of_origin() {
    let (w, h) = (128u32, 296u32);
    assert_eq!(find_rotation(0, 0, w, h, DisplayRotation::Rotate0), (0, 0));
    assert_eq!(find_rotation(0, 0, w, h, DisplayRotation::Rotate90), (127, 0));
    assert_eq!(find_rotation(0, 0, w, h, DisplayRotation::Rotate180), (127, 295));
    assert_eq!(find_rotation(0, 0, w, h, DisplayRotation::Rotate270), (0, 295));
    assert_eq!(find_rotation(10, 3, w, h, DisplayRotation::Rotate90), (124, 10));
}

#[test]
fn position_of_points() {
    let (w, h) = (128u32, 296u32);
    assert_eq!(find_position(0, 0, w, h, DisplayRotation::Rotate0), (0, 0x80));
    assert_eq!(find_position(9, 1, w, h, DisplayRotation::Rotate0), (17, 0x40));
    assert_eq!(find_position(0, 0, w, h, DisplayRotation::Rotate90), (15, 0x01));
    assert_eq!(find_position(0, 0, w, h, DisplayRotation::Rotate180), (4735, 0x01));
    assert_eq!(find_position(0, 0, w, h, DisplayRotation::Rotate270), (4720, 0x80));
}

#[test]
fn positions_are_distinct_and_in_range() {
    let (w, h) = (16u32, 12u32);
    for rotation in ROTATIONS {
        let (dw, dh) = drawing_size(w, h, rotation);
        let mut seen = vec![0u8; buffer_len(w as usize, h as usize)];
        for x in 0..dw {
            for y in 0..dh {
                assert!(!outside_display(x as i32, y as i32, w, h, rotation));
                let (idx, bit) = find_position(x, y, w, h, rotation);
                assert!((idx as usize) < seen.len());
                assert_eq!(bit.count_ones(), 1);
                assert_eq!(seen[idx as usize] & bit, 0);
                seen[idx as usize] |= bit;
            }
        }
        assert!(seen.iter().all(|&b| b == 0xFF));
    }
}

#[test]
fn drawing_size_swaps_for_quarter_turns() {
    let mut display = Display2in9Mono::new();
    assert_eq!(display.size(), (296, 128));
    display.set_rotation(DisplayRotation::Rotate0);
    assert_eq!(display.size(), (128, 296));
    display.set_rotation(DisplayRotation::Rotate180);
    assert_eq!(display.size(), (128, 296));
    display.set_rotation(DisplayRotation::Rotate90);
    assert_eq!(display.size(), (296, 128));
    assert_eq!(display.rotation(), DisplayRotation::Rotate90);
    let gray = Display2in9Gray2::new();
    assert_eq!(gray.size(), (296, 128));
}

#[test]
fn mono_new_is_white_and_upright_at_270() {
    let display = Display2in9Mono::default();
    assert_eq!(display.buffer().len(), 4736);
    assert!(display.buffer().iter().all(|&b| b == 0xFF));
    assert_eq!(display.rotation(), DisplayRotation::Rotate270);
    assert!(!display.is_inverted());
}

#[test]
fn mono_draw_reads_back_and_leaves_others() {
    let mut display = Display2in9Mono::new();
    // Rotate270: (x, y) goes to panel column y, row 295 - x
    display.draw_helper(WIDTH as u32, HEIGHT as u32, 5, 9, Color::Black);
    let (idx, bit) = find_position(5, 9, WIDTH as u32, HEIGHT as u32, DisplayRotation::Rotate270);
    assert_eq!((idx, bit), (9 / 8 + 16 * (295 - 5), 0x80 >> (9 % 8)));
    let buffer = display.buffer();
    assert_eq!(buffer[idx as usize], 0xFF & !bit);
    assert_eq!(buffer.iter().filter(|&&b| b != 0xFF).count(), 1);
    display.draw_helper(WIDTH as u32, HEIGHT as u32, 5, 9, Color::White);
    assert!(display.buffer().iter().all(|&b| b == 0xFF));
}

#[test]
fn mono_draw_outside_is_ignored() {
    let mut display = Display2in9Mono::new();
    display.draw_helper(WIDTH as u32, HEIGHT as u32, -1, 0, Color::Black);
    display.draw_helper(WIDTH as u32, HEIGHT as u32, 296, 0, Color::Black);
    display.draw_helper(WIDTH as u32, HEIGHT as u32, 0, 128, Color::Black);
    assert!(display.buffer().iter().all(|&b| b == 0xFF));
}

#[test]
fn mono_mutable_buffer() {
    let mut display = Display2in9Mono::new();
    display.get_mut_buffer()[3] = 0x0F;
    assert_eq!(display.buffer()[3], 0x0F);
    assert_eq!(display.buffer()[2], 0xFF);
}

#[test]
fn colors() {
    assert_eq!(Color::White.get_byte_value(), 0xFF);
    assert_eq!(Color::Black.get_byte_value(), 0x00);
    assert_eq!(Color::White.inverse(), Color::Black);
    assert_eq!(Color::Black.inverse(), Color::White);
    assert_eq!(Color::Black.inverse().inverse(), Color::Black);
}

#[test]
fn gray_levels() {
    assert_eq!(GrayLevel::new(255).into_storage(), 3);
    assert_eq!(GrayLevel::new(6).into_storage(), 2);
    assert_eq!(GrayLevel::new(1).into_storage(), 1);
    assert_eq!(GrayLevel::black().into_storage(), 0);
    assert_eq!(GrayLevel::white().into_storage(), 3);
}

#[test]
fn gray_new_is_white() {
    let display = Display2in9Gray2::default();
    assert_eq!(display.high_buffer().len(), 4736);
    assert_eq!(display.low_buffer().len(), 4736);
    assert!(display.high_buffer().iter().all(|&b| b == 0x00));
    assert!(display.low_buffer().iter().all(|&b| b == 0x00));
    assert_eq!(display.rotation(), DisplayRotation::Rotate270);
}

#[test]
fn gray_clear_buffer_table() {
    let mut display = Display2in9Gray2::new();
    // level: (BW RAM byte, Red RAM byte)
    let table = [(0u8, 0xFFu8, 0xFFu8), (1, 0xFF, 0x00), (2, 0x00, 0xFF), (3, 0x00, 0x00)];
    for (luma, high, low) in table {
        display.clear_buffer(GrayLevel::new(luma));
        assert!(display.high_buffer().iter().all(|&b| b == high));
        assert!(display.low_buffer().iter().all(|&b| b == low));
    }
}

#[test]
fn gray_set_pixel_table() {
    let table = [(0u8, true, true), (1, true, false), (2, false, true), (3, false, false)];
    for (luma, high_set, low_set) in table {
        let mut display = Display2in9Gray2::new();
        display.set_rotation(DisplayRotation::Rotate0);
        display.set_pixel(10, 2, GrayLevel::new(luma));
        let (idx, bit) = find_position(10, 2, 128, 296, DisplayRotation::Rotate0);
        assert_eq!((idx, bit), (33, 0x20));
        assert_eq!(display.high_buffer()[33] & bit != 0, high_set);
        assert_eq!(display.low_buffer()[33] & bit != 0, low_set);
        let others_high = display.high_buffer().iter().enumerate().filter(|(i, &b)| *i != 33 && b != 0).count();
        assert_eq!(others_high, 0);
        assert_eq!(display.high_buffer()[33] & !bit, 0);
        assert_eq!(display.low_buffer()[33] & !bit, 0);
    }
}

#[test]
fn gray_set_pixel_overwrites_and_ignores_outside() {
    let mut display = Display2in9Gray2::new();
    display.clear_buffer(GrayLevel::black());
    display.set_pixel(0, 0, GrayLevel::white());
    display.set_pixel(0, 0, GrayLevel::new(2));
    let (idx, bit) = find_position(0, 0, 128, 296, DisplayRotation::Rotate270);
    assert_eq!(display.high_buffer()[idx as usize], 0xFF & !bit);
    assert_eq!(display.low_buffer()[idx as usize], 0xFF);
    display.set_pixel(-3, 0, GrayLevel::white());
    display.set_pixel(0, 200, GrayLevel::white());
    assert_eq!(display.high_buffer().iter().filter(|&&b| b != 0xFF).count(), 1);
    assert!(display.low_buffer().iter().all(|&b| b == 0xFF));
}

#[test]
fn gray_binary_pixels() {
    let mut display = Display2in9Gray2::new();
    display.set_rotation(DisplayRotation::Rotate0);
    display.set_binary_pixel(0, 0, Color::Black);
    assert_eq!(display.high_buffer()[0], 0x80);
    assert_eq!(display.low_buffer()[0], 0x80);
    display.set_binary_pixel(0, 0, Color::White);
    assert_eq!(display.high_buffer()[0], 0x00);
    assert_eq!(display.low_buffer()[0], 0x00);
}

#[test]
fn gray_mutable_planes() {
    let mut display = Display2in9Gray2::new();
    display.get_mut_high_buffer()[0] = 0xAA;
    display.get_mut_low_buffer()[1] = 0x55;
    assert_eq!(display.high_buffer()[0], 0xAA);
    assert_eq!(display.low_buffer()[1], 0x55);
    assert_eq!(display.low_buffer()[0], 0x00);
}

#[test]
fn gray_set_pixel_twice_equals_once() {
    let mut twice = Display2in9Gray2::new();
    let mut once = Display2in9Gray2::new();
    twice.set_pixel(40, 17, GrayLevel::new(1));
    twice.set_pixel(40, 17, GrayLevel::new(2));
    once.set_pixel(40, 17, GrayLevel::new(2));
    assert_eq!(twice.high_buffer(), once.high_buffer());
    assert_eq!(twice.low_buffer(), once.low_buffer());
}

#[test]
fn gray_set_pixels_commute() {
    let mut a = Display2in9Gray2::new();
    let mut b = Display2in9Gray2::new();
    // neighbouring pixels that share a byte of the buffer
    a.set_pixel(3, 0, GrayLevel::new(0));
    a.set_pixel(3, 1, GrayLevel::new(1));
    b.set_pixel(3, 1, GrayLevel::new(1));
    b.set_pixel(3, 0, GrayLevel::new(0));
    assert_eq!(a.high_buffer(), b.high_buffer());
    assert_eq!(a.low_buffer(), b.low_buffer());
}

#[test]
fn setting_every_pixel_equals_clearing() {
    for rotation in ROTATIONS {
        let mut cleared = Display2in9Gray2::new();
        cleared.set_rotation(rotation);
        cleared.clear_buffer(GrayLevel::new(1));
        let mut painted = Display2in9Gray2::new();
        painted.set_rotation(rotation);
        let (w, h) = painted.size();
        assert_eq!(w * h, 8 * 4736);
        for x in 0..w as i32 {
            for y in 0..h as i32 {
                painted.set_pixel(x, y, GrayLevel::new(1));
            }
        }
        assert_eq!(painted.high_buffer(), cleared.high_buffer());
        assert_eq!(painted.low_buffer(), cleared.low_buffer());

        let mut mono = Display2in9Mono::new();
        mono.set_rotation(rotation);
        let (w, h) = mono.size();
        for x in 0..w as i32 {
            for y in 0..h as i32 {
                mono.draw_helper(WIDTH as u32, HEIGHT as u32, x, y, Color::Black);
            }
        }
        assert!(mono.buffer().iter().all(|&b| b == 0x00));
        assert!(!mono.is_inverted());
    }
}
