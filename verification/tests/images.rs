use std::io::Cursor;

use melo::markdown::images::{decode_image, halfblock_lines, image_lines, DecodedImage};
use melo::style::{Color, TextStyle};

fn png(width: u32, height: u32, f: impl Fn(u32, u32) -> [u8; 3]) -> Vec<u8> {
    let img = image::RgbImage::from_fn(width, height, |x, y| image::Rgb(f(x, y)));
    let mut out = Cursor::new(Vec::new());
    img.write_to(&mut out, image::ImageFormat::Png).unwrap();
    out.into_inner()
}

fn cell(top: (u8, u8, u8), bottom: (u8, u8, u8)) -> TextStyle {
    TextStyle::new().fg(Color::Rgb(bottom.0, bottom.1, bottom.2)).bg(Color::Rgb(top.0, top.1, top.2))
}

#[test]
fn halfblocks_stack_two_rows_per_line() {
    let a = (1, 2, 3);
    let b = (4, 5, 6);
    let c = (7, 8, 9);
    let d = (10, 11, 12);
    let lines = halfblock_lines(2, 2, &vec![a, b, c, d]);
    assert_eq!(lines.len(), 1);
    assert_eq!(lines[0].spans.len(), 2);
    assert_eq!(lines[0].spans[0].content, "\u{2584}");
    assert_eq!(lines[0].spans[0].style, cell(a, c));
    assert_eq!(lines[0].spans[1].style, cell(b, d));
}

#[test]
fn halfblocks_repeat_the_last_odd_row() {
    let p = |i: u8| (i, i, i);
    let lines = halfblock_lines(1, 3, &vec![p(1), p(2), p(3)]);
    assert_eq!(lines.len(), 2);
    assert_eq!(lines[0].spans[0].style, cell(p(1), p(2)));
    assert_eq!(lines[1].spans[0].style, cell(p(3), p(3)));
}

#[test]
fn halfblocks_of_an_empty_image_are_empty() {
    assert!(halfblock_lines(0, 0, &Vec::new()).is_empty());
    let lines = halfblock_lines(0, 2, &Vec::new());
    assert_eq!(lines.len(), 1);
    assert!(lines[0].spans.is_empty());
}

#[test]
fn png_bytes_decode_to_their_pixels() {
    let bytes = png(2, 1, |x, _| if x == 0 { [255, 0, 0] } else { [0, 0, 255] });
    let img = decode_image(&bytes).unwrap();
    assert_eq!((img.width, img.height), (2, 1));
    assert_eq!(img.pixels, vec![(255, 0, 0), (0, 0, 255)]);
}

#[test]
fn bytes_that_are_no_image_do_not_decode() {
    assert!(decode_image(&b"not an image".to_vec()).is_none());
    assert!(decode_image(&Vec::new()).is_none());
}

#[test]
fn image_at_its_own_size_is_drawn_pixel_for_pixel() {
    let img = DecodedImage { width: 1, height: 2, pixels: vec![(9, 9, 9), (1, 1, 1)] };
    let lines = image_lines(&img, 1, 2);
    assert_eq!(lines.len(), 1);
    assert_eq!(lines[0].spans[0].style, cell((9, 9, 9), (1, 1, 1)));
}

#[test]
fn image_is_scaled_and_its_height_made_even() {
    let bytes = png(8, 8, |_, _| [50, 100, 150]);
    let img = decode_image(&bytes).unwrap();
    let lines = image_lines(&img, 4, 3);
    // 3 rows become 4, two to a line
    assert_eq!(lines.len(), 2);
    assert!(lines.iter().all(|l| l.spans.len() == 4));
    assert_eq!(lines[1].spans[3].style, cell((50, 100, 150), (50, 100, 150)));
}
