use termgif::args::DisplaySize;
use termgif::escape::{push_bg, push_fg, push_move_to, push_reset, Rgb};
use termgif::layout::LayoutError;
use termgif::pixels::{PixelBuffer, SourceFrame};
use termgif::render::{
    rasterize, render_buffer, render_frame, render_image_line, render_sized, to_resized_buffer,
};

fn uniform(width: u32, height: u32, c: (u8, u8, u8)) -> PixelBuffer {
    let mut data = Vec::new();
    for _ in 0..(width * height) {
        data.push(c.0);
        data.push(c.1);
        data.push(c.2);
        data.push(255);
    }
    PixelBuffer::new(width, height, data).unwrap()
}

fn from_pixels(width: u32, height: u32, pixels: &[(u8, u8, u8)]) -> PixelBuffer {
    let mut data = Vec::new();
    for p in pixels {
        data.push(p.0);
        data.push(p.1);
        data.push(p.2);
        data.push(7);
    }
    PixelBuffer::new(width, height, data).unwrap()
}

#[test]
fn single_pixel_round_trip() {
    let buffer = uniform(1, 1, (10, 20, 30));
    let lines = rasterize(&buffer);
    assert_eq!(lines, vec!["\x1b[38;2;10;20;30m▀\x1b[0m"]);
}

#[test]
fn uniform_line_sets_each_colour_once() {
    for width in [1u32, 2, 5, 40] {
        let buffer = uniform(width, 2, (1, 22, 255));
        let lines = rasterize(&buffer);
        let exp = format!(
            "\x1b[38;2;1;22;255m\x1b[48;2;1;22;255m{}\x1b[0m",
            "▀".repeat(width as usize)
        );
        assert_eq!(lines, vec![exp]);
    }
}

#[test]
fn uniform_single_row_sets_no_background() {
    for width in [1u32, 3, 17] {
        let buffer = uniform(width, 1, (0, 0, 0));
        let lines = rasterize(&buffer);
        let exp = format!("\x1b[38;2;0;0;0m{}\x1b[0m", "▀".repeat(width as usize));
        assert_eq!(lines, vec![exp]);
    }
}

#[test]
fn uniform_odd_height_ends_with_a_foreground_only_line() {
    let buffer = uniform(2, 3, (9, 8, 7));
    let lines = rasterize(&buffer);
    assert_eq!(
        lines,
        vec![
            "\x1b[38;2;9;8;7m\x1b[48;2;9;8;7m▀▀\x1b[0m".to_string(),
            "\x1b[38;2;9;8;7m▀▀\x1b[0m".to_string(),
        ]
    );
}

#[test]
fn line_count_is_half_the_height_rounded_up() {
    for height in 1u32..=9 {
        let buffer = uniform(3, height, (5, 5, 5));
        assert_eq!(rasterize(&buffer).len() as u32, (height + 1) / 2);
    }
}

#[test]
fn every_line_opens_with_a_foreground_escape() {
    let buffer = uniform(4, 5, (100, 100, 100));
    for line in rasterize(&buffer) {
        assert!(line.starts_with("\x1b[38;2;100;100;100m"));
    }
}

#[test]
fn colours_are_set_only_where_they_change() {
    let red = (255, 0, 0);
    let blue = (0, 0, 255);
    let buffer = from_pixels(4, 2, &[red, red, blue, blue, blue, red, red, red]);
    let line = render_image_line(&buffer, 4, 0, true);
    let exp = "\x1b[38;2;255;0;0m\x1b[48;2;0;0;255m▀\x1b[48;2;255;0;0m▀\x1b[38;2;0;0;255m▀▀\x1b[0m";
    assert_eq!(line, exp);
}

#[test]
fn black_first_pixel_is_still_set() {
    let black = (0, 0, 0);
    let buffer = from_pixels(2, 2, &[black, black, black, black]);
    let line = render_image_line(&buffer, 2, 0, true);
    assert_eq!(line, "\x1b[38;2;0;0;0m\x1b[48;2;0;0;0m▀▀\x1b[0m");
}

#[test]
fn render_image_line_of_a_narrower_width() {
    let buffer = from_pixels(3, 1, &[(1, 2, 3), (4, 5, 6), (7, 8, 9)]);
    assert_eq!(render_image_line(&buffer, 0, 0, false), "\x1b[0m");
    assert_eq!(
        render_image_line(&buffer, 2, 0, false),
        "\x1b[38;2;1;2;3m▀\x1b[38;2;4;5;6m▀\x1b[0m"
    );
}

#[test]
fn alpha_is_ignored() {
    let a = PixelBuffer::new(1, 1, vec![1, 2, 3, 0]).unwrap();
    let b = PixelBuffer::new(1, 1, vec![1, 2, 3, 255]).unwrap();
    assert_eq!(rasterize(&a), rasterize(&b));
}

#[test]
fn get_pixel_reads_row_major() {
    let buffer = from_pixels(2, 2, &[(1, 1, 1), (2, 2, 2), (3, 3, 3), (4, 4, 4)]);
    assert_eq!(buffer.get_pixel(1, 0), Rgb { r: 2, g: 2, b: 2 });
    assert_eq!(buffer.get_pixel(0, 1), Rgb { r: 3, g: 3, b: 3 });
    assert_eq!(buffer.width(), 2);
    assert_eq!(buffer.height(), 2);
}

#[test]
fn pixel_buffer_refuses_what_is_no_grid() {
    assert!(PixelBuffer::new(0, 1, vec![]).is_none());
    assert!(PixelBuffer::new(1, 0, vec![]).is_none());
    assert!(PixelBuffer::new(1, 1, vec![0, 0, 0]).is_none());
    assert!(PixelBuffer::new(1, 1, vec![0, 0, 0, 0, 0]).is_none());
    assert!(PixelBuffer::new(u32::MAX, u32::MAX, vec![0; 4]).is_none());
    assert!(PixelBuffer::new(2, 1, vec![0; 8]).is_some());
}

#[test]
fn escapes_are_bit_exact() {
    let mut out = String::new();
    push_fg(&mut out, Rgb { r: 0, g: 128, b: 255 });
    push_bg(&mut out, Rgb { r: 1, g: 10, b: 100 });
    push_move_to(&mut out, 12, 345);
    push_reset(&mut out);
    assert_eq!(out, "\x1b[38;2;0;128;255m\x1b[48;2;1;10;100m\x1b[12;345H\x1b[0m");
}

#[test]
fn render_buffer_builds_the_frame() {
    let buffer = uniform(3, 5, (1, 1, 1));
    let frame = render_buffer(&buffer, 70);
    assert_eq!(frame.raw_frame.len(), 3);
    assert_eq!(frame.size, (3, 2));
    assert_eq!(frame.final_frame, None);
    assert_eq!(frame.delay, 70);
    assert_eq!(frame.raw_frame, rasterize(&buffer));
}

#[test]
fn resizing_gives_the_size_asked_for() {
    let buffer = uniform(4, 4, (10, 20, 30));
    let out = to_resized_buffer(&buffer, &DisplaySize::Size(Some(8), Some(6)), None).unwrap();
    assert_eq!((out.width(), out.height()), (8, 6));
    assert_eq!(out.as_raw().len(), 8 * 6 * 4);
    let out = to_resized_buffer(&buffer, &DisplaySize::Size(Some(2), None), None).unwrap();
    assert_eq!((out.width(), out.height()), (2, 2));
    assert_eq!(out.as_raw().len(), 2 * 2 * 4);
    let out = to_resized_buffer(&buffer, &DisplaySize::Fill, Some((7, 3))).unwrap();
    assert_eq!((out.width(), out.height()), (7, 6));
    let out = to_resized_buffer(&buffer, &DisplaySize::Fit, Some((80, 24))).unwrap();
    assert_eq!((out.width(), out.height()), (48, 48));
}

#[test]
fn resizing_to_the_same_size_copies() {
    let buffer = from_pixels(2, 2, &[(1, 2, 3), (4, 5, 6), (7, 8, 9), (10, 11, 12)]);
    let out = to_resized_buffer(&buffer, &DisplaySize::Size(Some(2), Some(2)), None).unwrap();
    assert_eq!(out.as_raw(), buffer.as_raw());
}

#[test]
fn resizing_reports_each_error() {
    let buffer = uniform(4, 2, (0, 0, 0));
    let err = |policy: DisplaySize, terminal| to_resized_buffer(&buffer, &policy, terminal).err();
    assert_eq!(err(DisplaySize::Fill, None), Some(LayoutError::TerminalUnavailable));
    assert_eq!(err(DisplaySize::Fit, None), Some(LayoutError::TerminalUnavailable));
    assert_eq!(err(DisplaySize::Size(None, None), None), Some(LayoutError::MissingSize));
    assert_eq!(err(DisplaySize::Size(Some(0), Some(3)), None), Some(LayoutError::DegenerateSize));
    assert_eq!(err(DisplaySize::Fill, Some((0, 10))), Some(LayoutError::DegenerateSize));
    assert_eq!(err(DisplaySize::Size(None, Some(u32::MAX)), None), Some(LayoutError::Oversized));
    assert_eq!(
        err(DisplaySize::Size(Some(u32::MAX), Some(u32::MAX)), None),
        Some(LayoutError::Oversized)
    );
}

#[test]
fn render_sized_rasterizes_the_resized_buffer() {
    let frame = SourceFrame { buffer: uniform(4, 4, (9, 9, 9)), delay: (100, 1) };
    let out = render_sized(&frame, &DisplaySize::Size(Some(4), Some(4)), None).unwrap();
    assert_eq!(out.raw_frame, rasterize(&frame.buffer));
    assert_eq!(out.size, (4, 2));
    assert_eq!(out.delay, 100);
    assert_eq!(out.final_frame, None);
    let out = render_sized(&frame, &DisplaySize::Fill, Some((6, 5))).unwrap();
    assert_eq!(out.raw_frame.len(), 5);
    assert_eq!(out.size, (6, 5));
    assert_eq!(
        render_sized(&frame, &DisplaySize::Fit, None).err(),
        Some(LayoutError::TerminalUnavailable)
    );
}

#[test]
fn render_frame_with_an_explicit_size() {
    let frame = SourceFrame { buffer: uniform(2, 2, (3, 4, 5)), delay: (45, 2) };
    let out = render_frame(frame, &DisplaySize::Size(Some(2), Some(2))).unwrap();
    assert_eq!(out.raw_frame, vec!["\x1b[38;2;3;4;5m\x1b[48;2;3;4;5m▀▀\x1b[0m"]);
    assert_eq!(out.size, (2, 1));
    assert_eq!(out.delay, 22);
    let frame = SourceFrame { buffer: uniform(2, 2, (3, 4, 5)), delay: (10, 1) };
    let out = render_frame(frame, &DisplaySize::Size(Some(6), None)).unwrap();
    assert_eq!(out.size, (6, 3));
    assert_eq!(out.raw_frame.len(), 3);
    let frame = SourceFrame { buffer: uniform(2, 2, (3, 4, 5)), delay: (10, 1) };
    assert_eq!(
        render_frame(frame, &DisplaySize::Size(Some(0), None)).err(),
        Some(LayoutError::DegenerateSize)
    );
}

#[test]
fn source_frame_delay_rounds_down() {
    let frame = SourceFrame { buffer: uniform(1, 1, (0, 0, 0)), delay: (7, 2) };
    assert_eq!(frame.delay_ms(), 3);
    let frame = SourceFrame { buffer: uniform(1, 1, (0, 0, 0)), delay: (u32::MAX, 1) };
    assert_eq!(frame.delay_ms(), u32::MAX as u64);
}

fn direct_line(pixels: &[(u8, u8, u8)], width: usize, y: usize, bottom: bool) -> String {
    let mut line = String::new();
    for x in 0..width {
        let (r, g, b) = pixels[y * width + x];
        if x == 0 || pixels[y * width + x - 1] != (r, g, b) {
            line.push_str(&format!("\x1b[38;2;{};{};{}m", r, g, b));
        }
        if bottom {
            let (r, g, b) = pixels[(y + 1) * width + x];
            if x == 0 || pixels[(y + 1) * width + x - 1] != (r, g, b) {
                line.push_str(&format!("\x1b[48;2;{};{};{}m", r, g, b));
            }
        }
        line.push('▀');
    }
    line.push_str("\x1b[0m");
    line
}

#[test]
fn rasterize_agrees_with_a_direct_rendering() {
    let mut state: u32 = 12345;
    for (width, height) in [(1usize, 1usize), (7, 4), (5, 5), (16, 9), (3, 2)] {
        let mut pixels = Vec::new();
        for _ in 0..(width * height) {
            state = state.wrapping_mul(1664525).wrapping_add(1013904223);
            let shade = ((state >> 24) % 3) as u8 * 100;
            state = state.wrapping_mul(1664525).wrapping_add(1013904223);
            pixels.push((shade, ((state >> 24) % 2) as u8 * 255, 9));
        }
        let buffer = from_pixels(width as u32, height as u32, &pixels);
        let mut exp = Vec::new();
        let mut y = 0;
        while y + 1 < height {
            exp.push(direct_line(&pixels, width, y, true));
            y += 2;
        }
        if height % 2 == 1 {
            exp.push(direct_line(&pixels, width, height - 1, false));
        }
        assert_eq!(rasterize(&buffer), exp);
    }
}
