use embedded_graphics::pixelcolor::raw::{RawData, RawU16};
use embedded_graphics::pixelcolor::Bgr565;
use st7735::{BusOp, Color, Pixel, Rect, ST7735};

fn window_ops(sx: u16, sy: u16, ex: u16, ey: u16) -> Vec<BusOp> {
    vec![
        BusOp::SelectCommand,
        BusOp::Write(vec![0x2A]),
        BusOp::SelectData,
        BusOp::Write(sx.to_be_bytes().to_vec()),
        BusOp::Write(ex.to_be_bytes().to_vec()),
        BusOp::SelectCommand,
        BusOp::Write(vec![0x2B]),
        BusOp::SelectData,
        BusOp::Write(sy.to_be_bytes().to_vec()),
        BusOp::Write(ey.to_be_bytes().to_vec()),
        BusOp::SelectCommand,
        BusOp::Write(vec![0x2C]),
        BusOp::SelectData,
    ]
}

fn count_windows(ops: &[BusOp]) -> usize {
    ops.iter().filter(|op| **op == BusOp::Write(vec![0x2A])).count()
}

fn pixel_bytes(ops: &[BusOp]) -> Vec<u8> {
    let mut bytes = Vec::new();
    for op in &ops[13..] {
        match op {
            BusOp::Write(data) => bytes.extend_from_slice(data),
            other => panic!("unexpected operation {:?}", other),
        }
    }
    bytes
}

fn gray(level: u8) -> Color {
    Color { r: level, g: level, b: level }
}

#[test]
fn color_words_pack_blue_green_red() {
    assert_eq!(Color { r: 31, g: 0, b: 0 }.to_word(), 0x001F);
    assert_eq!(Color { r: 0, g: 63, b: 0 }.to_word(), 0x07E0);
    assert_eq!(Color { r: 0, g: 0, b: 31 }.to_word(), 0xF800);
    assert_eq!(Color { r: 1, g: 2, b: 3 }.to_word(), 0x1841);
    assert_eq!(Color { r: 0, g: 0, b: 0 }.to_word(), 0x0000);
    assert_eq!(Color { r: 31, g: 63, b: 31 }.to_word(), 0xFFFF);
}

#[test]
fn color_words_drop_the_unused_high_bits() {
    assert_eq!(Color { r: 0xFF, g: 0, b: 0 }.to_word(), 0x001F);
    assert_eq!(Color { r: 0, g: 0xFF, b: 0 }.to_word(), 0x07E0);
    assert_eq!(Color { r: 0, g: 0, b: 0xFF }.to_word(), 0xF800);
    assert_eq!(Color { r: 0x20, g: 0x40, b: 0x20 }.to_word(), 0x0000);
}

#[test]
fn color_words_agree_with_embedded_graphics() {
    for r in [0u8, 1, 17, 31, 200] {
        for g in [0u8, 5, 33, 63, 129] {
            for b in [0u8, 9, 30, 31, 255] {
                let expected = RawU16::from(Bgr565::new(r, g, b)).into_inner();
                assert_eq!(Color { r, g, b }.to_word(), expected);
            }
        }
    }
}

#[test]
fn size_reports_width_and_height() {
    assert_eq!(ST7735::new(true, false, 128, 160).size(), (128, 160));
    assert_eq!(ST7735::new(true, false, 0, 7).size(), (0, 7));
}

#[test]
fn point_one_column_beyond_the_edge_is_dropped() {
    let display = ST7735::new(true, false, 128, 160);
    let ops = display.draw_iter(&[Pixel { x: 128, y: 0, color: gray(31) }]);
    assert_eq!(ops, vec![]);
}

#[test]
fn last_pixel_of_the_panel_is_drawn() {
    let display = ST7735::new(true, false, 128, 160);
    let ops = display.draw_iter(&[Pixel { x: 127, y: 159, color: Color { r: 31, g: 0, b: 0 } }]);
    let mut expected = window_ops(127, 159, 127, 159);
    expected.push(BusOp::Write(vec![0x00, 0x1F]));
    assert_eq!(ops, expected);
    assert_eq!(count_windows(&ops), 1);
}

#[test]
fn points_off_the_panel_are_skipped_and_the_others_drawn_in_order() {
    let mut display = ST7735::new(true, false, 4, 3);
    display.set_offset(2, 1);
    let red = Color { r: 31, g: 0, b: 0 };
    let blue = Color { r: 0, g: 0, b: 31 };
    let ops = display.draw_iter(&[
        Pixel { x: -1, y: 0, color: red },
        Pixel { x: 0, y: 0, color: red },
        Pixel { x: 0, y: -1, color: red },
        Pixel { x: 4, y: 2, color: red },
        Pixel { x: 3, y: 3, color: red },
        Pixel { x: 3, y: 2, color: blue },
        Pixel { x: i32::MAX, y: i32::MIN, color: blue },
    ]);
    let mut expected = window_ops(2, 1, 2, 1);
    expected.push(BusOp::Write(vec![0x00, 0x1F]));
    expected.extend(window_ops(5, 3, 5, 3));
    expected.push(BusOp::Write(vec![0xF8, 0x00]));
    assert_eq!(ops, expected);
}

#[test]
fn drawing_no_points_sends_nothing() {
    let display = ST7735::new(true, false, 128, 160);
    assert_eq!(display.draw_iter(&[]), vec![]);
}

#[test]
fn fill_outside_the_panel_sends_nothing() {
    let display = ST7735::new(true, false, 128, 160);
    let colors = vec![gray(10); 25];
    assert_eq!(display.fill_contiguous(&Rect { x: 128, y: 0, width: 5, height: 5 }, &colors), vec![]);
    assert_eq!(display.fill_contiguous(&Rect { x: 0, y: 160, width: 5, height: 5 }, &colors), vec![]);
    assert_eq!(display.fill_contiguous(&Rect { x: -5, y: 0, width: 5, height: 5 }, &colors), vec![]);
    assert_eq!(display.fill_contiguous(&Rect { x: 0, y: -5, width: 5, height: 5 }, &colors), vec![]);
    assert_eq!(
        display.fill_contiguous(&Rect { x: 1000, y: 1000, width: 5, height: 5 }, &colors),
        vec![]
    );
}

#[test]
fn fill_of_an_empty_area_sends_nothing() {
    let display = ST7735::new(true, false, 128, 160);
    let colors = vec![gray(10); 4];
    assert_eq!(display.fill_contiguous(&Rect { x: 3, y: 3, width: 0, height: 5 }, &colors), vec![]);
    assert_eq!(display.fill_contiguous(&Rect { x: 3, y: 3, width: 5, height: 0 }, &colors), vec![]);
    assert_eq!(display.fill_contiguous(&Rect { x: 0, y: 0, width: 0, height: 0 }, &colors), vec![]);
}

#[test]
fn fill_on_a_panel_without_pixels_sends_nothing() {
    let display = ST7735::new(true, false, 0, 160);
    let colors = vec![gray(10); 4];
    assert_eq!(display.fill_contiguous(&Rect { x: 0, y: 0, width: 2, height: 2 }, &colors), vec![]);
}

#[test]
fn fill_inside_the_panel_streams_every_color() {
    let mut display = ST7735::new(true, false, 128, 160);
    display.set_offset(2, 1);
    let colors: Vec<Color> = (0..6).map(|k| Color { r: k, g: 0, b: 0 }).collect();
    let ops = display.fill_contiguous(&Rect { x: 10, y: 20, width: 3, height: 2 }, &colors);
    let mut expected = window_ops(12, 21, 14, 22);
    expected.push(BusOp::Write(vec![0, 0, 0, 1, 0, 2, 0, 3, 0, 4, 0, 5]));
    assert_eq!(ops, expected);
}

#[test]
fn fill_across_the_right_edge_keeps_the_colors_of_visible_points() {
    let display = ST7735::new(true, false, 4, 4);
    let colors: Vec<Color> = (0..12).map(|k| Color { r: k, g: 0, b: 0 }).collect();
    let ops = display.fill_contiguous(&Rect { x: 2, y: 2, width: 4, height: 3 }, &colors);
    let mut expected = window_ops(2, 2, 3, 3);
    expected.push(BusOp::Write(vec![0, 0, 0, 1, 0, 4, 0, 5]));
    assert_eq!(ops, expected);
}

#[test]
fn fill_across_the_top_left_corner_keeps_the_colors_of_visible_points() {
    let display = ST7735::new(true, false, 4, 4);
    let colors: Vec<Color> = (0..9).map(|k| Color { r: k, g: 0, b: 0 }).collect();
    let ops = display.fill_contiguous(&Rect { x: -1, y: -1, width: 3, height: 3 }, &colors);
    let mut expected = window_ops(0, 0, 1, 1);
    expected.push(BusOp::Write(vec![0, 4, 0, 5, 0, 7, 0, 8]));
    assert_eq!(ops, expected);
}

#[test]
fn fill_larger_than_the_panel_is_clipped_on_all_sides() {
    let display = ST7735::new(true, false, 2, 2);
    let colors: Vec<Color> = (0..16).map(|k| Color { r: k, g: 0, b: 0 }).collect();
    let ops = display.fill_contiguous(&Rect { x: -1, y: -1, width: 4, height: 4 }, &colors);
    let mut expected = window_ops(0, 0, 1, 1);
    expected.push(BusOp::Write(vec![0, 5, 0, 6, 0, 9, 0, 10]));
    assert_eq!(ops, expected);
}

#[test]
fn fill_with_fewer_colors_than_points_streams_what_there_is() {
    let display = ST7735::new(true, false, 8, 8);
    let colors: Vec<Color> = (0..3).map(|k| Color { r: k + 1, g: 0, b: 0 }).collect();
    let ops = display.fill_contiguous(&Rect { x: 1, y: 1, width: 2, height: 2 }, &colors);
    let mut expected = window_ops(1, 1, 2, 2);
    expected.push(BusOp::Write(vec![0, 1, 0, 2, 0, 3]));
    assert_eq!(ops, expected);
}

#[test]
fn fill_with_more_colors_than_points_ignores_the_rest() {
    let display = ST7735::new(true, false, 8, 8);
    let colors: Vec<Color> = (0..10).map(|k| Color { r: k + 1, g: 0, b: 0 }).collect();
    let ops = display.fill_contiguous(&Rect { x: 6, y: 7, width: 2, height: 1 }, &colors);
    let mut expected = window_ops(6, 7, 7, 7);
    expected.push(BusOp::Write(vec![0, 1, 0, 2]));
    assert_eq!(ops, expected);
}

#[test]
fn fill_without_colors_sets_the_window_and_flushes_an_empty_write() {
    let display = ST7735::new(true, false, 8, 8);
    let ops = display.fill_contiguous(&Rect { x: 0, y: 0, width: 2, height: 2 }, &[]);
    let mut expected = window_ops(0, 0, 1, 1);
    expected.push(BusOp::Write(vec![]));
    assert_eq!(ops, expected);
}

#[test]
fn fill_of_a_large_area_is_sent_in_writes_of_sixteen_colors() {
    let display = ST7735::new(false, false, 128, 160);
    let colors = vec![Color { r: 0, g: 63, b: 0 }; 40];
    let ops = display.fill_contiguous(&Rect { x: 0, y: 0, width: 8, height: 5 }, &colors);
    assert_eq!(&ops[..13], &window_ops(0, 0, 7, 4)[..]);
    assert_eq!(ops.len(), 13 + 3);
    assert_eq!(ops[13], BusOp::Write([0x07u8, 0xE0].repeat(16)));
    assert_eq!(ops[14], BusOp::Write([0x07u8, 0xE0].repeat(16)));
    assert_eq!(ops[15], BusOp::Write([0x07u8, 0xE0].repeat(8)));
}

#[test]
fn clear_covers_the_whole_panel_with_one_color() {
    let display = ST7735::new(true, false, 4, 3);
    let ops = display.clear(Color { r: 1, g: 2, b: 3 });
    let mut expected = window_ops(0, 0, 3, 2);
    expected.push(BusOp::Write([0x18u8, 0x41].repeat(12)));
    assert_eq!(ops, expected);
    assert_eq!(count_windows(&ops), 1);
}

#[test]
fn clear_repeats_the_color_for_every_pixel() {
    let mut display = ST7735::new(false, false, 128, 160);
    display.set_offset(2, 1);
    let ops = display.clear(Color { r: 31, g: 0, b: 31 });
    assert_eq!(&ops[..13], &window_ops(2, 1, 129, 160)[..]);
    assert_eq!(ops.len(), 13 + 128 * 160 / 16);
    assert_eq!(pixel_bytes(&ops), [0xF8u8, 0x1F].repeat(128 * 160));
}

#[test]
fn clear_of_a_single_pixel_panel() {
    let display = ST7735::new(true, false, 1, 1);
    let mut expected = window_ops(0, 0, 0, 0);
    expected.push(BusOp::Write(vec![0xFF, 0xFF]));
    assert_eq!(display.clear(Color { r: 31, g: 63, b: 31 }), expected);
}
