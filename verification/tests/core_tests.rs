use surface_blit::blit::draw_rect_into_buffer;
use surface_blit::format::{bytes_per_pixel, get_color_format, PixelFormat};
use surface_blit::rect::{clamp_rect, rect_in_bounds, Rect};

fn fresh_buffer(stride: u32, height: u32, bpp: u32, fill: u8) -> Vec<u8> {
    vec![fill; (stride * height * bpp) as usize]
}

#[test]
fn format_table_is_total_with_known_widths() {
    assert_eq!(bytes_per_pixel(PixelFormat::R8G8B8A8Unorm), 4);
    assert_eq!(bytes_per_pixel(PixelFormat::R8G8B8X8Unorm), 4);
    assert_eq!(bytes_per_pixel(PixelFormat::R8G8B8Unorm), 3);
    assert_eq!(bytes_per_pixel(PixelFormat::R5G6B5Unorm), 2);
    assert_eq!(bytes_per_pixel(PixelFormat::R16G16B16A16Float), 8);
    assert_eq!(bytes_per_pixel(PixelFormat::R10G10B10A2Unorm), 4);
    assert_eq!(bytes_per_pixel(PixelFormat::Blob), 4);
    assert_eq!(bytes_per_pixel(PixelFormat::D16Unorm), 2);
    assert_eq!(bytes_per_pixel(PixelFormat::D24Unorm), 3);
    assert_eq!(bytes_per_pixel(PixelFormat::D24UnormS8Uint), 3);
    assert_eq!(bytes_per_pixel(PixelFormat::D32Float), 4);
    assert_eq!(bytes_per_pixel(PixelFormat::D32FloatS8Uint), 4);
    assert_eq!(bytes_per_pixel(PixelFormat::S8Uint), 1);
    assert_eq!(bytes_per_pixel(PixelFormat::Y8Cb8Cr8420), 3);
}

#[test]
fn format_widths_land_in_allowed_set() {
    let formats = [
        PixelFormat::R8G8B8A8Unorm,
        PixelFormat::R8G8B8X8Unorm,
        PixelFormat::R8G8B8Unorm,
        PixelFormat::R5G6B5Unorm,
        PixelFormat::R16G16B16A16Float,
        PixelFormat::R10G10B10A2Unorm,
        PixelFormat::Blob,
        PixelFormat::D16Unorm,
        PixelFormat::D24Unorm,
        PixelFormat::D24UnormS8Uint,
        PixelFormat::D32Float,
        PixelFormat::D32FloatS8Uint,
        PixelFormat::S8Uint,
        PixelFormat::Y8Cb8Cr8420,
    ];
    for f in formats {
        let bpp = bytes_per_pixel(f);
        assert!(matches!(bpp, 1 | 2 | 3 | 4 | 8));
    }
}

#[test]
fn demo_color_format_is_four_byte_rgba() {
    let (format, bpp) = get_color_format();
    assert_eq!(format, PixelFormat::R8G8B8A8Unorm);
    assert_eq!(bpp, 4);
}

#[test]
fn rect_validity_checks_both_axes() {
    let ok = Rect { top: 0, left: 0, bottom: 100, right: 50 };
    assert!(rect_in_bounds(&ok, 720, 1600));
    let empty_cols = Rect { top: 0, left: 50, bottom: 100, right: 50 };
    assert!(!rect_in_bounds(&empty_cols, 720, 1600));
    let empty_rows = Rect { top: 100, left: 0, bottom: 100, right: 50 };
    assert!(!rect_in_bounds(&empty_rows, 720, 1600));
    let too_wide = Rect { top: 0, left: 0, bottom: 100, right: 721 };
    assert!(!rect_in_bounds(&too_wide, 720, 1600));
    let too_tall = Rect { top: 0, left: 0, bottom: 1601, right: 50 };
    assert!(!rect_in_bounds(&too_tall, 720, 1600));
    let full = Rect { top: 0, left: 0, bottom: 1600, right: 720 };
    assert!(rect_in_bounds(&full, 720, 1600));
}

#[test]
fn clamping_keeps_valid_rects_and_shrinks_overshooting_ones() {
    let valid = Rect { top: 2, left: 3, bottom: 9, right: 7 };
    assert_eq!(clamp_rect(&valid, 10, 10), Some(valid));
    let overshoot = Rect { top: 2, left: 3, bottom: 99, right: 70 };
    assert_eq!(
        clamp_rect(&overshoot, 10, 10),
        Some(Rect { top: 2, left: 3, bottom: 10, right: 10 })
    );
    let off_window = Rect { top: 2, left: 12, bottom: 9, right: 20 };
    assert_eq!(clamp_rect(&off_window, 10, 10), None);
    let inverted = Rect { top: 9, left: 3, bottom: 2, right: 7 };
    assert_eq!(clamp_rect(&inverted, 10, 10), None);
}

#[test]
fn blit_720x1600_rgba_paints_rect_and_leaves_rest() {
    let (stride, height, bpp) = (720u32, 1600u32, 4u32);
    let mut bits = fresh_buffer(stride, height, bpp, 9);
    let colors: Vec<u8> = vec![255, 0, 0, 255];
    let rect = Rect { top: 0, left: 0, bottom: 100, right: 50 };
    draw_rect_into_buffer(&mut bits, &colors, &rect, stride, height);
    assert_eq!(bits.len(), (stride * height * bpp) as usize);
    for row in 0..height {
        for col in 0..stride {
            let base = ((row * stride + col) * bpp) as usize;
            let expected: [u8; 4] = if row < 100 && col < 50 {
                [255, 0, 0, 255]
            } else {
                [9, 9, 9, 9]
            };
            assert_eq!(&bits[base..base + 4], &expected);
        }
    }
}

#[test]
fn blit_full_window_rect_fills_every_pixel() {
    let (stride, height, bpp) = (8u32, 5u32, 4u32);
    let mut bits = fresh_buffer(stride, height, bpp, 0);
    let colors: Vec<u8> = vec![1, 2, 3, 4];
    let rect = Rect { top: 0, left: 0, bottom: height, right: stride };
    draw_rect_into_buffer(&mut bits, &colors, &rect, stride, height);
    for p in 0..(stride * height) as usize {
        assert_eq!(&bits[p * 4..p * 4 + 4], &[1, 2, 3, 4]);
    }
}

#[test]
fn blit_twice_equals_blit_once() {
    let (stride, height, bpp) = (16u32, 12u32, 3u32);
    let colors: Vec<u8> = vec![10, 20, 30];
    let rect = Rect { top: 3, left: 5, bottom: 11, right: 14 };
    let mut once = fresh_buffer(stride, height, bpp, 77);
    draw_rect_into_buffer(&mut once, &colors, &rect, stride, height);
    let mut twice = fresh_buffer(stride, height, bpp, 77);
    draw_rect_into_buffer(&mut twice, &colors, &rect, stride, height);
    draw_rect_into_buffer(&mut twice, &colors, &rect, stride, height);
    assert_eq!(once, twice);
}

#[test]
fn blit_respects_stride_larger_than_width() {
    // A window 6 pixels wide backed by rows of 8 pixels: the two padding
    // pixel slots at the end of each row must stay untouched.
    let (width, stride, height, bpp) = (6u32, 8u32, 4u32, 2u32);
    let mut bits = fresh_buffer(stride, height, bpp, 5);
    let colors: Vec<u8> = vec![0xAB, 0xCD];
    let rect = Rect { top: 0, left: 0, bottom: height, right: width };
    draw_rect_into_buffer(&mut bits, &colors, &rect, stride, height);
    for row in 0..height {
        for col in 0..stride {
            let base = ((row * stride + col) * bpp) as usize;
            let expected: [u8; 2] = if col < width { [0xAB, 0xCD] } else { [5, 5] };
            assert_eq!(&bits[base..base + 2], &expected);
        }
    }
}

#[test]
fn blit_corner_pixel_touches_only_the_last_pixel() {
    // The bottom-right corner pixel addresses the very last bytes of the
    // buffer; the blit must fill them and nothing else.
    let (stride, height, bpp) = (720u32, 1600u32, 4u32);
    let mut bits = fresh_buffer(stride, height, bpp, 3);
    let colors: Vec<u8> = vec![11, 22, 33, 44];
    let rect = Rect { top: height - 1, left: stride - 1, bottom: height, right: stride };
    draw_rect_into_buffer(&mut bits, &colors, &rect, stride, height);
    let len = bits.len();
    assert_eq!(&bits[len - 4..], &[11, 22, 33, 44]);
    assert!(bits[..len - 4].iter().all(|&b| b == 3));
}

#[test]
fn blit_single_pixel_rect() {
    let (stride, height, bpp) = (4u32, 4u32, 1u32);
    let mut bits = fresh_buffer(stride, height, bpp, 0);
    let colors: Vec<u8> = vec![42];
    let rect = Rect { top: 2, left: 1, bottom: 3, right: 2 };
    draw_rect_into_buffer(&mut bits, &colors, &rect, stride, height);
    let mut expected = vec![0u8; 16];
    expected[(2 * 4 + 1) as usize] = 42;
    assert_eq!(bits, expected);
}
