//! Inline images: decoded with the `image` crate, scaled with its triangle
//! filter, and drawn as half blocks, two pixels stacked in each cell.
use vstd::prelude::*;
use std::io::Cursor;
use image::imageops::FilterType;
use image::{ImageReader, RgbImage};
use crate::style::{Color, TextStyle};
use crate::text::{line_of, lines_view, push_line, push_span, span_v, spans_view, LineView, SpanView, StyledLine, StyledSpan};

verus! {

/// An RGB pixel.
pub type Pixel = (u8, u8, u8);

/// A decoded image: its size and its pixels, row by row.
pub struct DecodedImage {
    pub width: u32,
    pub height: u32,
    pub pixels: Vec<Pixel>,
}

/// Name for what the `image` crate decodes from the bytes of an image file (its
/// format guessed from the bytes): the width, the height and the pixels row by
/// row, their alpha dropped; `None` when the format is unknown or decoding fails.
pub uninterp spec fn spec_decoded(bytes: Seq<u8>) -> Option<(u32, u32, Seq<Pixel>)>;

/// Decodes image bytes with `ImageReader::with_guessed_format` and `decode` on an
/// in-memory reader, and takes the pixels of `to_rgba8` without their alpha.
/// Claimed: the result is a function of the bytes (named above), and a decoded
/// image has width times height pixels, as an `ImageBuffer` always does.
#[verifier::external_body]
fn decode_rgba(bytes: &Vec<u8>) -> (r: Option<(u32, u32, Vec<Pixel>)>)
    ensures
        match r {
            Some((w, h, p)) => spec_decoded(bytes@) == Some((w, h, p@)) && p@.len() == w * h,
            None => spec_decoded(bytes@) is None,
        },
{
    let reader = ImageReader::new(Cursor::new(bytes.as_slice())).with_guessed_format().ok()?;
    let img = reader.decode().ok()?.to_rgba8();
    let pixels = img.pixels().map(|p| (p[0], p[1], p[2])).collect();
    Some((img.width(), img.height(), pixels))
}

/// Name for what `imageops::resize` with the triangle filter makes of a `w` by `h`
/// image (pixels row by row) scaled to `new_w` by `new_h`.
pub uninterp spec fn spec_resized(w: u32, h: u32, pixels: Seq<Pixel>, new_w: u32, new_h: u32) -> Seq<Pixel>;

/// Scales an image with `imageops::resize` and `FilterType::Triangle`. Claimed: the
/// result is a function of the arguments (named above) and has `new_w` times
/// `new_h` pixels. The bounds keep the crate's buffers within what a vector can
/// hold (it samples vertically into 16-byte pixels first, then horizontally).
#[verifier::external_body]
fn resize_triangle(w: u32, h: u32, pixels: &Vec<Pixel>, new_w: u32, new_h: u32) -> (r: Vec<Pixel>)
    requires
        pixels@.len() == w * h,
        w * new_h * 16 <= isize::MAX,
        new_w * new_h * 16 <= isize::MAX,
    ensures
        r@ == spec_resized(w, h, pixels@, new_w, new_h),
        r@.len() == new_w * new_h,
{
    let raw: Vec<u8> = pixels.iter().flat_map(|p| [p.0, p.1, p.2]).collect();
    let img = RgbImage::from_raw(w, h, raw).unwrap();
    let out = image::imageops::resize(&img, new_w, new_h, FilterType::Triangle);
    out.pixels().map(|p| (p[0], p[1], p[2])).collect()
}

/// Decodes the bytes of an image file; an image without pixels (no width or no
/// height) gives `None`, as one that cannot be decoded does.
pub fn decode_image(bytes: &Vec<u8>) -> (r: Option<DecodedImage>)
    ensures
        match r {
            Some(img) => spec_decoded(bytes@) == Some((img.width, img.height, img.pixels@))
                && img.width > 0 && img.height > 0 && img.pixels@.len() == img.width * img.height,
            None => match spec_decoded(bytes@) {
                Some((w, h, _)) => w == 0 || h == 0,
                None => true,
            },
        },
{
    match decode_rgba(bytes) {
        Some((width, height, pixels)) => {
            if width == 0 || height == 0 {
                None
            } else {
                Some(DecodedImage { width, height, pixels })
            }
        },
        None => None,
    }
}

/// The pixel at column `x` of row `y`.
pub open spec fn pixel_at(width: u32, pixels: Seq<Pixel>, x: int, y: int) -> Pixel {
    pixels[y * width + x]
}

/// One cell: `▄` with the lower pixel as foreground and the upper one as background.
pub open spec fn halfblock_cell(top: Pixel, bottom: Pixel) -> SpanView {
    span_v(
        seq!['\u{2584}'],
        TextStyle {
            fg: Some(Color::Rgb(bottom.0, bottom.1, bottom.2)),
            bg: Some(Color::Rgb(top.0, top.1, top.2)),
            add_modifier: 0,
            sub_modifier: 0,
        },
    )
}

/// The lower pixel of a cell of line `k`: from row `2k + 1`, or from row `2k` again
/// on the last line of an image of odd height.
pub open spec fn lower_row(height: u32, k: int) -> int {
    if 2 * k + 1 < height { 2 * k + 1 } else { 2 * k }
}

/// Line `k` of the half-block drawing: one cell per column, from rows `2k` and `2k + 1`.
pub open spec fn halfblock_row(width: u32, height: u32, pixels: Seq<Pixel>, k: int) -> LineView {
    line_of(Seq::new(width as nat, |x: int|
        halfblock_cell(pixel_at(width, pixels, x, 2 * k), pixel_at(width, pixels, x, lower_row(height, k)))))
}

/// The half-block drawing of a `width` by `height` image: one line per two rows.
pub open spec fn halfblocks(width: u32, height: u32, pixels: Seq<Pixel>) -> Seq<LineView> {
    Seq::new(((height as nat + 1) / 2) as nat, |k: int| halfblock_row(width, height, pixels, k))
}

/// `n`, or `n + 1` when it is odd.
pub open spec fn even_up(n: u32) -> u32 {
    if n % 2 != 0 { (n + 1) as u32 } else { n }
}

proof fn lemma_index_in_grid(x: int, y: int, w: int, h: int)
    by (nonlinear_arith)
    requires
        0 <= x < w,
        0 <= y < h,
    ensures
        0 <= y * w + x < w * h,
        y * w <= y * w + x,
{
}

fn halfblock_cell_of(top: Pixel, bottom: Pixel) -> (r: StyledSpan)
    ensures
        r@ == halfblock_cell(top, bottom),
{
    let st = TextStyle {
        fg: Some(Color::Rgb(bottom.0, bottom.1, bottom.2)),
        bg: Some(Color::Rgb(top.0, top.1, top.2)),
        add_modifier: 0,
        sub_modifier: 0,
    };
    let c = ['\u{2584}'];
    let r = StyledSpan::styled(&c, st);
    assert(c@ =~= seq!['\u{2584}']);
    r
}

/// Draws an image as half blocks: each line covers two rows of pixels, each cell
/// one column, with `▄` in the lower pixel's color on the upper pixel's color; on
/// an image of odd height the last line repeats its row below.
pub fn halfblock_lines(width: u32, height: u32, pixels: &Vec<Pixel>) -> (r: Vec<StyledLine>)
    requires
        pixels@.len() == width * height,
    ensures
        lines_view(r@) == halfblocks(width, height, pixels@),
{
    let n = pixels.len();
    let rows: u32 = height / 2 + height % 2;
    let ghost all = halfblocks(width, height, pixels@);
    let mut out: Vec<StyledLine> = Vec::new();
    let mut k: u32 = 0;
    while k < rows
        invariant
            k <= rows,
            rows == (height as nat + 1) / 2,
            n == pixels@.len(),
            pixels@.len() == width * height,
            all == halfblocks(width, height, pixels@),
            lines_view(out@) == all.take(k as int),
        decreases rows - k,
    {
        let y = 2 * k;
        let y2 = if y + 1 < height { y + 1 } else { y };
        let ghost row = halfblock_row(width, height, pixels@, k as int);
        let mut spans: Vec<StyledSpan> = Vec::new();
        let mut x: u32 = 0;
        while x < width
            invariant
                x <= width,
                k < rows,
                rows == (height as nat + 1) / 2,
                y == 2 * k,
                y2 == lower_row(height, k as int),
                n == pixels@.len(),
                pixels@.len() == width * height,
                row == halfblock_row(width, height, pixels@, k as int),
                spans_view(spans@) == row.spans.take(x as int),
            decreases width - x,
        {
            proof {
                lemma_index_in_grid(x as int, y as int, width as int, height as int);
                lemma_index_in_grid(x as int, y2 as int, width as int, height as int);
            }
            let top = pixels[y as usize * width as usize + x as usize];
            let bottom = pixels[y2 as usize * width as usize + x as usize];
            push_span(&mut spans, halfblock_cell_of(top, bottom));
            proof {
                assert(row.spans.take(x + 1 as int) =~= row.spans.take(x as int).push(row.spans[x as int]));
            }
            x = x + 1;
        }
        assert(row.spans.take(width as int) =~= row.spans);
        let line = StyledLine::from_spans(spans);
        push_line(&mut out, line);
        proof {
            assert(all.take(k + 1 as int) =~= all.take(k as int).push(all[k as int]));
        }
        k = k + 1;
    }
    assert(all.take(rows as int) =~= all);
    out
}

/// The lines that show an image scaled to `new_w` by `new_h` pixels (the height
/// made even first), two rows of pixels to a line.
pub fn image_lines(img: &DecodedImage, new_w: u32, new_h: u32) -> (r: Vec<StyledLine>)
    requires
        img.pixels@.len() == img.width * img.height,
        new_h < u32::MAX,
        img.width * even_up(new_h) * 16 <= isize::MAX,
        new_w * even_up(new_h) * 16 <= isize::MAX,
    ensures
        lines_view(r@) == halfblocks(new_w, even_up(new_h),
            spec_resized(img.width, img.height, img.pixels@, new_w, even_up(new_h))),
{
    let h = if new_h % 2 != 0 { new_h + 1 } else { new_h };
    let resized = resize_triangle(img.width, img.height, &img.pixels, new_w, h);
    halfblock_lines(new_w, h, &resized)
}

} // verus!
