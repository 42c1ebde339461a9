use kernel_with_bootloader::palette::{Colors, PixelFormat};
use kernel_with_bootloader::writer::{FrameBufferInfo, FrameBufferWriter};

fn rgb_console(width: usize, height: usize, stride: usize, bpp: usize) -> FrameBufferWriter {
    let info = FrameBufferInfo {
        width,
        height,
        stride,
        bytes_per_pixel: bpp,
        pixel_format: PixelFormat::Rgb,
    };
    FrameBufferWriter::new(vec![0u8; height * stride * bpp], info)
}

#[test]
fn new_clears_and_homes_cursor_and_anchor() {
    let w = rgb_console(100, 100, 120, 1);
    assert_eq!(w.x_pos, 1);
    assert_eq!(w.y_pos, 1);
    assert_eq!(w.x, 1);
    assert_eq!(w.y, 1);
    assert!(w.framebuffer.iter().all(|b| *b == 0));
    assert_eq!(w.framebuffer.len(), 100 * 120);
}

#[test]
fn set_cursor_in_bounds_updates_cursor_and_anchor() {
    let mut w = rgb_console(100, 100, 100, 1);
    w.setChange(5, 7, Colors::Green);
    assert_eq!(w.x_pos, 5);
    assert_eq!(w.y_pos, 7);
    assert_eq!(w.x, 5);
    assert_eq!(w.y, 7);
    assert_eq!(w.color, Colors::Green);
}

#[test]
fn set_cursor_at_exact_bounds_is_accepted() {
    let mut w = rgb_console(100, 100, 100, 1);
    w.setChange(100, 100, Colors::Blue);
    assert_eq!(w.x_pos, 100);
    assert_eq!(w.y_pos, 100);
}

#[test]
fn set_cursor_out_of_bounds_is_a_no_op() {
    let mut w = rgb_console(100, 100, 100, 1);
    w.setChange(5, 7, Colors::Green);
    w.setChange(101, 7, Colors::Red);
    assert_eq!(w.x_pos, 5);
    assert_eq!(w.y_pos, 7);
    assert_eq!(w.color, Colors::Green);
    w.setChange(5, 101, Colors::Red);
    assert_eq!(w.y_pos, 7);
    assert_eq!(w.color, Colors::Green);
}

#[test]
fn newline_resets_column_and_advances_one_line() {
    let mut w = rgb_console(100, 100, 100, 1);
    w.setChange(40, 10, Colors::White);
    w.write_str("\n");
    assert_eq!(w.x_pos, 1);
    assert_eq!(w.y_pos, 10 + 16 + 2);
}

#[test]
fn carriage_return_resets_column_only() {
    let mut w = rgb_console(100, 100, 100, 1);
    w.setChange(40, 10, Colors::White);
    w.write_char('\r');
    assert_eq!(w.x_pos, 1);
    assert_eq!(w.y_pos, 10);
}

#[test]
fn overflowing_character_wraps_exactly_once() {
    // Width 20: glyphs start at 1 and 8; the third would reach 22 >= 20.
    let mut w = rgb_console(20, 100, 20, 1);
    w.write_char('A');
    assert_eq!(w.x_pos, 8);
    w.write_char('A');
    assert_eq!(w.x_pos, 15);
    assert_eq!(w.y_pos, 1);
    w.write_char('A');
    assert_eq!(w.x_pos, 1 + 7);
    assert_eq!(w.y_pos, 1 + 16 + 2);
}

#[test]
fn bottom_edge_overflow_clears_the_console() {
    let mut w = rgb_console(100, 36, 100, 1);
    // One line fits (1 + 16 + 1 < 36); after one newline 19 + 17 >= 36 forces a clear.
    w.write_char('A');
    w.write_char('\n');
    w.write_char('B');
    assert_eq!(w.y_pos, 1);
    assert_eq!(w.x_pos, 8);
}

#[test]
fn clear_is_idempotent() {
    let mut w = rgb_console(100, 100, 100, 1);
    w.write_str("Hi");
    w.clear();
    let buffer_once = w.framebuffer.clone();
    let cursor_once = (w.x_pos, w.y_pos, w.x, w.y);
    w.clear();
    assert_eq!(w.framebuffer, buffer_once);
    assert_eq!((w.x_pos, w.y_pos, w.x, w.y), cursor_once);
    assert!(w.framebuffer.iter().all(|b| *b == 0));
    assert_eq!(w.x_pos, 1);
    assert_eq!(w.y_pos, 1);
}

#[test]
fn glyphs_reach_the_framebuffer() {
    let mut w = rgb_console(100, 100, 100, 1);
    w.write_char('A');
    assert_eq!(w.x_pos, 1 + 7);
    assert!(w.framebuffer.iter().any(|b| *b != 0));
}

#[test]
fn backspace_after_a_glyph_erases_its_box() {
    let mut w = rgb_console(100, 100, 100, 1);
    w.write_char('A');
    assert!(w.framebuffer.iter().any(|b| *b != 0));
    w.backspace();
    assert_eq!(w.x_pos, 1);
    assert!(w.framebuffer.iter().all(|b| *b == 0));
}

#[test]
fn backspace_at_anchor_is_a_no_op() {
    let mut w = rgb_console(100, 100, 100, 1);
    w.setChange(5, 5, Colors::White);
    w.backspace();
    assert_eq!(w.x_pos, 5);
    assert_eq!(w.y_pos, 5);
    assert_eq!(w.x, 5);
}

#[test]
fn backspace_near_anchor_snaps_cursor_back_to_it() {
    let mut w = rgb_console(100, 100, 100, 1);
    w.setChange(99, 30, Colors::White);
    w.write_char('\n');
    // No horizontal room on the new line: climb back, caret at the width.
    w.backspace();
    assert_eq!(w.x_pos, 100);
    assert_eq!(w.y_pos, 30);
    // One column past the anchor: the cursor snaps to it, the anchor stays.
    w.backspace();
    assert_eq!(w.x_pos, 99);
    assert_eq!(w.x, 99);
    assert_eq!(w.y_pos, 30);
}

#[test]
fn backspace_off_the_anchored_line_erases_from_the_cursor() {
    let mut w = rgb_console(100, 100, 100, 1);
    w.setChange(7, 10, Colors::White);
    w.write_char('\n');
    w.write_char('A');
    // Cursor (8, 28) is one column past the anchor's column but on another
    // line: no snap — the glyph just written is erased, back from the cursor.
    assert!(w.framebuffer.iter().any(|b| *b != 0));
    w.backspace();
    assert_eq!(w.x_pos, 1);
    assert_eq!(w.y_pos, 28);
    assert!(w.framebuffer.iter().all(|b| *b == 0));
    assert_eq!(w.x, 7);
    assert_eq!(w.y, 10);
}

#[test]
fn backspace_without_room_climbs_one_line() {
    let mut w = rgb_console(100, 100, 100, 1);
    w.setChange(30, 30, Colors::White);
    w.write_char('\n');
    // Cursor now at column 1 on line 48, anchor still at (30, 30).
    w.backspace();
    assert_eq!(w.y_pos, 30);
    assert_eq!(w.x_pos, 100);
}
