use kernel_with_bootloader::palette::{resolve_color, swap_elements, Colors, PixelFormat};
use kernel_with_bootloader::writer::{FrameBufferInfo, FrameBufferWriter};

fn console(fmt: PixelFormat, bpp: usize) -> FrameBufferWriter {
    let info = FrameBufferInfo {
        width: 50,
        height: 50,
        stride: 50,
        bytes_per_pixel: bpp,
        pixel_format: fmt,
    };
    FrameBufferWriter::new(vec![0u8; 50 * 50 * bpp], info)
}

#[test]
fn swap_elements_exchanges_first_and_third_channel() {
    let mut matrix = [[0u8; 4]; 9];
    for (i, row) in matrix.iter_mut().enumerate() {
        *row = [10 + i as u8, 20 + i as u8, 30 + i as u8, 40 + i as u8];
    }
    let swapped = swap_elements(&matrix);
    for i in 0..9 {
        assert_eq!(
            swapped[i],
            [30 + i as u8, 20 + i as u8, 10 + i as u8, 40 + i as u8]
        );
    }
}

#[test]
fn rgb_red_template_puts_intensity_first() {
    assert_eq!(
        resolve_color(PixelFormat::Rgb, Colors::Red, 200),
        [200, 0, 0, 0]
    );
}

#[test]
fn bgr_red_template_is_swapped() {
    // Requested red is [I, 0, 0, 0]; on BGR the bytes written are [0, 0, I, 0].
    assert_eq!(
        resolve_color(PixelFormat::Bgr, Colors::Red, 170),
        [0, 0, 170, 0]
    );
}

#[test]
fn orange_green_share_is_two_thirds() {
    assert_eq!(
        resolve_color(PixelFormat::Rgb, Colors::Orange, 255),
        [255, 170, 0, 0]
    );
}

#[test]
fn purple_halves_red_and_blue() {
    assert_eq!(
        resolve_color(PixelFormat::Rgb, Colors::Purple, 255),
        [127, 0, 127, 0]
    );
}

#[test]
fn single_channel_thresholds_at_200() {
    assert_eq!(resolve_color(PixelFormat::U8, Colors::White, 255)[0], 0xf);
    assert_eq!(resolve_color(PixelFormat::U8, Colors::White, 100)[0], 0);
    assert_eq!(resolve_color(PixelFormat::U8, Colors::White, 201)[0], 0xf);
    assert_eq!(resolve_color(PixelFormat::U8, Colors::White, 200)[0], 0);
}

#[test]
fn write_pixel_bgr_red_truncated_to_bytes_per_pixel() {
    let mut w = console(PixelFormat::Bgr, 3);
    w.setChange(0, 0, Colors::Red);
    w.write_pixel(4, 2, 255);
    let offset = (2 * 50 + 4) * 3;
    assert_eq!(&w.framebuffer[offset..offset + 3], &[0, 0, 255]);
    // Every other byte stays zero.
    let touched = offset..offset + 3;
    for (k, b) in w.framebuffer.iter().enumerate() {
        if !touched.contains(&k) {
            assert_eq!(*b, 0);
        }
    }
}

#[test]
fn write_pixel_single_channel_sentinels() {
    let mut w = console(PixelFormat::U8, 1);
    w.setChange(0, 0, Colors::White);
    w.write_pixel(3, 3, 255);
    assert_eq!(w.framebuffer[3 * 50 + 3], 0xf);
    w.write_pixel(3, 3, 100);
    assert_eq!(w.framebuffer[3 * 50 + 3], 0);
}
