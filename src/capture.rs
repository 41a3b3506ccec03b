//! The captured screen image and the extraction of a selected region from it.
use vstd::prelude::*;
use crate::geometry::{edge, pixel_ceil, pixel_floor, PixelRect};
use crate::selection::{max_int, min_int, Selection};

verus! {

/// A screen image, `width` × `height` pixels of four bytes each (RGBA8),
/// stored row by row from the top-left corner.
pub struct CapturedImage {
    width: u32,
    height: u32,
    pixels: Vec<u8>,
}

impl CapturedImage {
    #[verifier::type_invariant]
    spec fn well_formed(self) -> bool {
        self.pixels@.len() == 4 * self.width * self.height
    }

    pub closed spec fn spec_width(self) -> u32 {
        self.width
    }

    pub closed spec fn spec_height(self) -> u32 {
        self.height
    }

    pub closed spec fn spec_pixels(self) -> Seq<u8> {
        self.pixels@
    }

    /// The image with the given size and pixel bytes, if there are exactly
    /// four bytes for each pixel.
    pub fn new(width: u32, height: u32, pixels: Vec<u8>) -> (r: Option<CapturedImage>)
        ensures
            r is Some <==> pixels@.len() == 4 * width * height,
            r matches Some(img) ==> img.spec_width() == width && img.spec_height() == height
                && img.spec_pixels() == pixels@,
    {
        assert(width as int * height as int <= 0xffff_ffff * 0xffff_ffff) by (nonlinear_arith)
            requires
                width <= 0xffff_ffff,
                height <= 0xffff_ffff,
        ;
        let area: u128 = width as u128 * height as u128;
        let expected: u128 = 4 * area;
        assert(expected == 4 * width * height) by (nonlinear_arith)
            requires
                expected == 4 * area,
                area == width * height,
        ;
        if pixels.len() as u128 == expected {
            Some(CapturedImage { width, height, pixels })
        } else {
            None
        }
    }

    pub fn width(&self) -> (r: u32)
        ensures
            r == self.spec_width(),
    {
        self.width
    }

    pub fn height(&self) -> (r: u32)
        ensures
            r == self.spec_height(),
    {
        self.height
    }

    /// The pixel bytes, row by row.
    pub fn pixels(&self) -> (r: &Vec<u8>)
        ensures
            r@ == self.spec_pixels(),
            r@.len() == 4 * self.spec_width() * self.spec_height(),
    {
        proof {
            use_type_invariant(self);
        }
        &self.pixels
    }
}

/// A block of pixels cut out of an image: `width` × `height` pixels of four
/// bytes each, row by row.
pub struct Region {
    pub width: u32,
    pub height: u32,
    pub bytes: Vec<u8>,
}

/// Why no region could be extracted.
#[derive(Clone, Copy, Debug, PartialEq, Eq, Structural)]
pub enum ExtractError {
    /// Nothing is selected.
    NoSelection,
    /// The selection covers no whole pixel.
    EmptySelection,
}

/// The bytes of row `row` of the rectangle `r`, counted from its top, in an
/// image `width` pixels wide.
pub open spec fn row_bytes(pixels: Seq<u8>, width: u32, r: PixelRect, row: int) -> Seq<u8> {
    let line = (r.min_y + row) * width;
    pixels.subrange(4 * (line + r.min_x), 4 * (line + r.max_x))
}

/// The bytes of the first `rows` rows of the rectangle `r`, top to bottom.
pub open spec fn region_bytes(pixels: Seq<u8>, width: u32, r: PixelRect, rows: nat) -> Seq<u8>
    decreases rows,
{
    if rows == 0 {
        Seq::empty()
    } else {
        region_bytes(pixels, width, r, (rows - 1) as nat) + row_bytes(pixels, width, r, rows - 1)
    }
}

proof fn lemma_row_in_image(width: u32, height: u32, r: PixelRect, row: int)
    requires
        0 <= row,
        r.min_y + row < height,
        r.min_x <= r.max_x <= width,
    ensures
        0 <= (r.min_y + row) * width,
        (r.min_y + row) * width + r.max_x <= width * height,
        4 * width * height == 4 * (width * height),
        0 <= 4 * ((r.min_y + row) * width + r.min_x),
        4 * ((r.min_y + row) * width + r.min_x) <= 4 * ((r.min_y + row) * width + r.max_x),
        4 * ((r.min_y + row) * width + r.max_x) <= 4 * width * height,
{
    let y = r.min_y + row;
    assert(0 <= y * width) by (nonlinear_arith)
        requires
            0 <= y,
            0 <= width,
    ;
    assert(y * width + width <= width * height) by (nonlinear_arith)
        requires
            0 <= y < height,
            0 <= width,
    ;
    assert(4 * width * height == 4 * (width * height)) by (nonlinear_arith);
}

proof fn lemma_region_len(pixels: Seq<u8>, width: u32, height: u32, r: PixelRect, rows: nat)
    requires
        pixels.len() == 4 * width * height,
        r.min_y + rows <= height,
        r.min_x <= r.max_x <= width,
    ensures
        region_bytes(pixels, width, r, rows).len() == 4 * (r.max_x - r.min_x) * rows,
    decreases rows,
{
    if rows > 0 {
        lemma_region_len(pixels, width, height, r, (rows - 1) as nat);
        lemma_row_in_image(width, height, r, rows - 1);
        let w = r.max_x - r.min_x;
        let line = (r.min_y + rows - 1) * width;
        assert(row_bytes(pixels, width, r, rows - 1).len() == 4 * (line + r.max_x) - 4 * (line
            + r.min_x));
        assert(4 * w * (rows - 1) + 4 * w == 4 * w * rows) by (nonlinear_arith);
    } else {
        assert(4 * (r.max_x - r.min_x) * rows == 0) by (nonlinear_arith)
            requires
                rows == 0,
        ;
    }
}

/// Copies the pixels of the rectangle `rect` out of `image`, row by row.
fn copy_rect(image: &CapturedImage, rect: PixelRect) -> (r: Vec<u8>)
    requires
        rect.min_x <= rect.max_x <= image.spec_width(),
        rect.min_y <= rect.max_y <= image.spec_height(),
    ensures
        r@ == region_bytes(
            image.spec_pixels(),
            image.spec_width(),
            rect,
            (rect.max_y - rect.min_y) as nat,
        ),
{
    let pixels = image.pixels();
    let width = image.width();
    let height = image.height();
    let total: usize = pixels.len();
    let mut bytes: Vec<u8> = Vec::new();
    let mut y: u32 = rect.min_y;
    while y < rect.max_y
        invariant
            rect.min_y <= y <= rect.max_y,
            rect.min_x <= rect.max_x <= width,
            rect.max_y <= height,
            width == image.spec_width(),
            pixels@ == image.spec_pixels(),
            pixels@.len() == 4 * width * height,
            total == pixels@.len(),
            bytes@ == region_bytes(pixels@, width, rect, (y - rect.min_y) as nat),
        decreases rect.max_y - y,
    {
        proof {
            lemma_row_in_image(width, height, rect, y - rect.min_y);
        }
        let line: usize = y as usize * width as usize;
        let first: usize = 4 * (line + rect.min_x as usize);
        let last: usize = 4 * (line + rect.max_x as usize);
        let ghost done = bytes@;
        let mut i: usize = first;
        while i < last
            invariant
                first <= i <= last,
                last <= pixels@.len(),
                bytes@ == done + pixels@.subrange(first as int, i as int),
            decreases last - i,
        {
            bytes.push(pixels[i]);
            i += 1;
            assert(pixels@.subrange(first as int, i as int) == pixels@.subrange(
                first as int,
                i - 1,
            ).push(pixels@[i - 1]));
        }
        assert(row_bytes(pixels@, width, rect, y - rect.min_y) == pixels@.subrange(
            first as int,
            last as int,
        ));
        y += 1;
    }
    bytes
}

/// Cuts the pixels that `selection` covers out of `image`.
///
/// The rectangle is `selection.coords(..)` on the image's size: on each axis
/// from the ceiling of the smaller coordinate to the floor of the larger one,
/// clipped to the image. It fails with `EmptySelection` exactly when that
/// rectangle holds no pixel; otherwise the region has the rectangle's size,
/// holds `4 * width * height` bytes, and they are the rectangle's rows, top
/// to bottom.
pub fn extract_region(image: &CapturedImage, selection: &Selection) -> (r: Result<Region, ExtractError>)
    ensures
        ({
            let rect = selection.spec_coords(image.spec_width(), image.spec_height());
            match r {
                Ok(region) => {
                    &&& !rect.spec_is_empty()
                    &&& region.width == rect.max_x - rect.min_x
                    &&& region.height == rect.max_y - rect.min_y
                    &&& region.bytes@.len() == 4 * region.width * region.height
                    &&& region.bytes@ == region_bytes(
                        image.spec_pixels(),
                        image.spec_width(),
                        rect,
                        region.height as nat,
                    )
                },
                Err(e) => rect.spec_is_empty() && e == ExtractError::EmptySelection,
            }
        }),
{
    let rect = selection.coords(image.width(), image.height());
    if rect.is_empty() {
        return Err(ExtractError::EmptySelection);
    }
    let bytes = copy_rect(image, rect);
    let region = Region { width: rect.max_x - rect.min_x, height: rect.max_y - rect.min_y, bytes };
    proof {
        let pixels = image.spec_pixels();
        use_type_invariant(image);
        lemma_region_len(pixels, image.spec_width(), image.spec_height(), rect, region.height as nat);
        assert(4 * (rect.max_x - rect.min_x) * region.height == 4 * region.width * region.height);
    }
    Ok(region)
}

/// A selection whose corners coincide covers no whole pixel, wherever it lies,
/// so `extract_region` refuses it with `EmptySelection` and never returns an
/// empty region.
pub proof fn lemma_point_selection_is_empty(selection: Selection, width: u32, height: u32)
    requires
        selection.start == selection.end,
    ensures
        selection.spec_coords(width, height).spec_is_empty(),
{
    let v = selection.start.x as int;
    let c = if v < 0 { 0 } else if v > edge(width) { edge(width) } else { v };
    assert(min_int(v, v) == v && max_int(v, v) == v);
    assert(c >= 0);
    assert(pixel_floor(c) <= pixel_ceil(c)) by (nonlinear_arith)
        requires
            c >= 0,
            pixel_floor(c) == c / 256,
            pixel_ceil(c) == (c + 255) / 256,
    ;
    crate::selection::lemma_pixel_span_bounds(v, v, width);
}

} // verus!
