//! The frame buffer: pixel writes, shapes, and centered placement.

use electron_bot::image::ImageBuffer;
use electron_bot::types::Color;

#[test]
fn new_frame_is_black() {
    let buf = ImageBuffer::new();
    assert_eq!(buf.as_data().len(), 172800);
    assert!(buf.as_data().iter().all(|b| *b == 0));
    assert_eq!(buf.get_pixel(0, 0), Some(Color::Custom(0, 0, 0)));
}

#[test]
fn clear_stores_device_color_order() {
    let mut buf = ImageBuffer::new();
    buf.clear(Color::Custom(10, 20, 30));
    let data = buf.as_data();
    assert_eq!(data[0], 30);
    assert_eq!(data[1], 20);
    assert_eq!(data[2], 10);
    assert_eq!(buf.get_pixel(239, 239), Some(Color::Custom(10, 20, 30)));
}

#[test]
fn set_pixel_round_trips_and_ignores_out_of_range() {
    let mut buf = ImageBuffer::new();
    buf.set_pixel(5, 7, Color::Red);
    assert_eq!(buf.get_pixel(5, 7), Some(Color::Custom(255, 0, 0)));
    assert_eq!(buf.get_pixel(4, 7), Some(Color::Custom(0, 0, 0)));
    let before = buf.as_data().clone();
    buf.set_pixel(240, 0, Color::White);
    buf.set_pixel(0, 240, Color::White);
    assert_eq!(buf.as_data(), &before);
    assert_eq!(buf.get_pixel(240, 0), None);
    assert_eq!(buf.get_pixel(0, 240), None);
}

#[test]
fn fill_rect_paints_exactly_the_rectangle() {
    let mut buf = ImageBuffer::new();
    buf.fill_rect(10, 20, 3, 2, Color::Green);
    for x in 0..240 {
        for y in 0..240 {
            let expected = if (10..13).contains(&x) && (20..22).contains(&y) {
                Color::Custom(0, 255, 0)
            } else {
                Color::Custom(0, 0, 0)
            };
            assert_eq!(buf.get_pixel(x, y), Some(expected));
        }
    }
}

#[test]
fn fill_rect_clips_at_the_frame_edge() {
    let mut buf = ImageBuffer::new();
    buf.fill_rect(238, 238, 10, 10, Color::Blue);
    assert_eq!(buf.get_pixel(239, 239), Some(Color::Custom(0, 0, 255)));
    assert_eq!(buf.get_pixel(237, 239), Some(Color::Custom(0, 0, 0)));
}

#[test]
fn draw_circle_covers_center_and_radius() {
    let mut buf = ImageBuffer::new();
    buf.draw_circle(100, 100, 10, Color::White);
    assert_eq!(buf.get_pixel(100, 100), Some(Color::Custom(255, 255, 255)));
    assert_eq!(buf.get_pixel(110, 100), Some(Color::Custom(255, 255, 255)));
    assert_eq!(buf.get_pixel(111, 100), Some(Color::Custom(0, 0, 0)));
    assert_eq!(buf.get_pixel(108, 108), Some(Color::Custom(0, 0, 0)));
}

#[test]
fn load_exact_source_reverses_channels() {
    let mut src = vec![0u8; 240 * 240 * 3];
    src[0] = 1;
    src[1] = 2;
    src[2] = 3;
    let last = (239 * 240 + 239) * 3;
    src[last] = 7;
    src[last + 1] = 8;
    src[last + 2] = 9;
    let mut buf = ImageBuffer::new();
    buf.load_from_data(&src, 240, 240).unwrap();
    assert_eq!(buf.get_pixel(0, 0), Some(Color::Custom(1, 2, 3)));
    assert_eq!(buf.get_pixel(239, 239), Some(Color::Custom(7, 8, 9)));
}

#[test]
fn load_smaller_source_is_centered() {
    let mut src = vec![0u8; 100 * 100 * 3];
    src[0] = 1;
    src[1] = 2;
    src[2] = 3;
    let last = (99 * 100 + 99) * 3;
    src[last] = 4;
    src[last + 1] = 5;
    src[last + 2] = 6;
    let mut buf = ImageBuffer::new();
    buf.clear(Color::White);
    buf.load_from_data(&src, 100, 100).unwrap();
    assert_eq!(buf.get_pixel(70, 70), Some(Color::Custom(1, 2, 3)));
    assert_eq!(buf.get_pixel(169, 169), Some(Color::Custom(4, 5, 6)));
    for &(x, y) in &[(69, 70), (170, 70), (70, 69), (70, 170), (0, 0), (239, 239)] {
        assert_eq!(buf.get_pixel(x, y), Some(Color::Custom(0, 0, 0)), "at ({}, {})", x, y);
    }
}

#[test]
fn load_larger_source_keeps_matching_coordinates() {
    let mut src = vec![0u8; 300 * 300 * 3];
    let probe = (120 * 300 + 120) * 3;
    src[probe] = 9;
    src[probe + 1] = 8;
    src[probe + 2] = 7;
    let outside = (250 * 300 + 250) * 3;
    src[outside] = 1;
    let mut buf = ImageBuffer::new();
    buf.load_from_data(&src, 300, 300).unwrap();
    assert_eq!(buf.get_pixel(120, 120), Some(Color::Custom(9, 8, 7)));
    assert_eq!(buf.get_pixel(0, 0), Some(Color::Custom(0, 0, 0)));
}

#[test]
fn load_refuses_short_source() {
    let mut buf = ImageBuffer::new();
    buf.set_pixel(0, 0, Color::Red);
    let before = buf.as_data().clone();
    let r = buf.load_from_data(&vec![0u8; 10], 100, 100);
    assert!(r.is_err());
    assert_eq!(buf.as_data(), &before);
}

#[test]
fn test_pattern_tiles_given_colors() {
    let colors = vec![(100, 110, 120), (130, 140, 150), (160, 170, 180), (190, 200, 210)];
    let mut buf = ImageBuffer::new();
    buf.render_test_pattern(&colors, 120);
    assert_eq!(buf.get_pixel(0, 0), Some(Color::Custom(100, 110, 120)));
    assert_eq!(buf.get_pixel(119, 119), Some(Color::Custom(100, 110, 120)));
    assert_eq!(buf.get_pixel(120, 0), Some(Color::Custom(130, 140, 150)));
    assert_eq!(buf.get_pixel(0, 120), Some(Color::Custom(160, 170, 180)));
    assert_eq!(buf.get_pixel(239, 239), Some(Color::Custom(190, 200, 210)));
}

#[test]
fn test_pattern_leaves_the_leftover_strip_black() {
    let colors = vec![(200, 200, 200); 4];
    let mut buf = ImageBuffer::new();
    buf.render_test_pattern(&colors, 100);
    assert_eq!(buf.get_pixel(0, 0), Some(Color::Custom(200, 200, 200)));
    assert_eq!(buf.get_pixel(199, 199), Some(Color::Custom(200, 200, 200)));
    assert_eq!(buf.get_pixel(200, 0), Some(Color::Custom(0, 0, 0)));
    assert_eq!(buf.get_pixel(0, 200), Some(Color::Custom(0, 0, 0)));
}

#[test]
fn random_test_pattern_is_black_or_bright() {
    let buf = ImageBuffer::render_test_pattern_with_rng(40);
    for x in 0..240 {
        for y in 0..240 {
            match buf.get_pixel(x, y) {
                Some(Color::Custom(r, g, b)) => {
                    let black = r == 0 && g == 0 && b == 0;
                    let bright = r >= 80 && g >= 80 && b >= 80;
                    assert!(black || bright, "pixel ({}, {}) = ({}, {}, {})", x, y, r, g, b);
                },
                other => panic!("unexpected pixel {:?}", other),
            }
        }
    }
}

#[test]
fn random_test_pattern_differs_between_frames() {
    let a = ImageBuffer::render_test_pattern_with_rng(40);
    let b = ImageBuffer::render_test_pattern_with_rng(40);
    // 36 blocks of 3 components, each uniform over 176 values: two
    // identical frames would mean the generator handed back a
    // constant; astronomically unlikely with a real sampler.
    assert_ne!(a.as_data(), b.as_data());
}

#[test]
fn color_components_match_their_names() {
    assert_eq!(Color::Red.rgb(), (255, 0, 0));
    assert_eq!(Color::Red.bgr(), (0, 0, 255));
    assert_eq!(Color::Green.rgb(), (0, 255, 0));
    assert_eq!(Color::Blue.bgr(), (255, 0, 0));
    assert_eq!(Color::White.rgb(), (255, 255, 255));
    assert_eq!(Color::Black.rgb(), (0, 0, 0));
    assert_eq!(Color::Yellow.rgb(), (255, 255, 0));
    assert_eq!(Color::Cyan.rgb(), (0, 255, 255));
    assert_eq!(Color::Magenta.rgb(), (255, 0, 255));
    assert_eq!(Color::Custom(1, 2, 3).rgb(), (1, 2, 3));
    assert_eq!(Color::Custom(1, 2, 3).bgr(), (3, 2, 1));
}
