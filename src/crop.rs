//! Cropping a rectangular region out of a decoded image.

use vstd::prelude::*;

verus! {

/// A rectangle of pixels: its top-left corner and its size.
#[derive(PartialEq, Eq, Structural, Clone, Copy, Debug)]
pub struct CropRegion {
    pub x: u32,
    pub y: u32,
    pub width: u32,
    pub height: u32,
}

/// Whether `region` lies within an image of `width` by `height` pixels.
pub open spec fn region_fits(region: CropRegion, width: int, height: int) -> bool {
    region.x + region.width <= width && region.y + region.height <= height
}

/// Why a crop failed.
#[derive(PartialEq, Eq, Structural, Clone, Copy, Debug)]
pub enum CropError {
    /// The region reaches past the image's right or bottom edge.
    OutOfBounds,
    /// The pixel data does not match the stated dimensions.
    BadDimensions,
}

/// A decoded image: `width` by `height` pixels in row-major order, one
/// packed value per pixel.
pub struct Raster {
    width: u32,
    height: u32,
    pixels: Vec<u32>,
}

impl Raster {
    pub closed spec fn spec_width(&self) -> int {
        self.width as int
    }

    pub closed spec fn spec_height(&self) -> int {
        self.height as int
    }

    /// The pixel in column `col` of row `row`.
    pub closed spec fn pixel_at(&self, col: int, row: int) -> u32 {
        self.pixels@[row * self.width + col]
    }

    /// The row-major pixel sequence.
    pub closed spec fn spec_pixels(&self) -> Seq<u32> {
        self.pixels@
    }

    /// The pixel data holds exactly one value per pixel.
    pub closed spec fn wf(&self) -> bool {
        self.pixels@.len() == self.width * self.height
    }

    /// An image from its dimensions and row-major pixels; `BadDimensions`
    /// where their number is not `width * height`.
    pub fn new(width: u32, height: u32, pixels: Vec<u32>) -> (r: Result<Raster, CropError>)
        ensures
            pixels@.len() == width as int * height as int <==> r is Ok,
            !(pixels@.len() == width as int * height as int) ==> r == Err::<Raster, CropError>(
                CropError::BadDimensions,
            ),
            r matches Ok(img) ==> {
                &&& img.wf()
                &&& img.spec_width() == width
                &&& img.spec_height() == height
                &&& img.spec_pixels() == pixels@
                &&& forall|c: int, rw: int|
                    0 <= c < width && 0 <= rw < height ==> #[trigger] img.pixel_at(c, rw)
                        == pixels@[rw * width + c]
            },
    {
        assert(width as int * height as int <= 0xffff_ffff * 0xffff_ffff) by (nonlinear_arith)
            requires
                width <= 0xffff_ffff,
                height <= 0xffff_ffff,
        ;
        let ok = (width as u64) * (height as u64) == pixels.len() as u64;
        if ok {
            Ok(Raster { width, height, pixels })
        } else {
            Err(CropError::BadDimensions)
        }
    }

    pub fn width(&self) -> (r: u32)
        ensures
            r == self.spec_width(),
    {
        self.width
    }

    pub fn height(&self) -> (r: u32)
        ensures
            r == self.spec_height(),
    {
        self.height
    }

    /// The row-major pixels.
    pub fn pixels(&self) -> (r: &Vec<u32>)
        ensures
            r@ == self.spec_pixels(),
    {
        &self.pixels
    }

    /// The pixel in column `col` of row `row`.
    pub fn pixel(&self, col: u32, row: u32) -> (r: u32)
        requires
            self.wf(),
            col < self.spec_width(),
            row < self.spec_height(),
        ensures
            r == self.pixel_at(col as int, row as int),
    {
        let n = self.pixels.len();
        proof {
            lemma_index_below(self.width as int, self.height as int, col as int, row as int);
            assert(row * self.width <= row * self.width + col);
        }
        self.pixels[row as usize * self.width as usize + col as usize]
    }

    /// The part of the image inside `region`, as an image of the region's
    /// size; `OutOfBounds` where the region reaches past the image.
    pub fn crop(&self, region: &CropRegion) -> (r: Result<Raster, CropError>)
        requires
            self.wf(),
        ensures
            r is Ok <==> region_fits(*region, self.spec_width(), self.spec_height()),
            !region_fits(*region, self.spec_width(), self.spec_height()) ==> r == Err::<
                Raster,
                CropError,
            >(CropError::OutOfBounds),
            r matches Ok(out) ==> {
                &&& out.wf()
                &&& out.spec_width() == region.width
                &&& out.spec_height() == region.height
                &&& forall|c: int, rw: int|
                    0 <= c < region.width && 0 <= rw < region.height ==> #[trigger] out.pixel_at(
                        c,
                        rw,
                    ) == self.pixel_at(region.x + c, region.y + rw)
            },
    {
        let fits = region.x as u64 + region.width as u64 <= self.width as u64 && region.y as u64
            + region.height as u64 <= self.height as u64;
        if !fits {
            return Err(CropError::OutOfBounds);
        }
        let w = region.width;
        let h = region.height;
        let mut out: Vec<u32> = Vec::new();
        let mut row: u32 = 0;
        while row < h
            invariant
                self.wf(),
                region_fits(*region, self.width as int, self.height as int),
                w == region.width,
                h == region.height,
                row <= h,
                out@.len() == row * w,
                forall|c: int, rw: int|
                    0 <= c < w && 0 <= rw < row ==> #[trigger] out@[rw * w + c] == self.pixel_at(
                        region.x + c,
                        region.y + rw,
                    ),
            decreases h - row,
        {
            let mut col: u32 = 0;
            while col < w
                invariant
                    self.wf(),
                    region_fits(*region, self.width as int, self.height as int),
                    w == region.width,
                    h == region.height,
                    row < h,
                    col <= w,
                    out@.len() == row * w + col,
                    forall|c: int, rw: int|
                        0 <= c < w && 0 <= rw < row ==> #[trigger] out@[rw * w + c]
                            == self.pixel_at(region.x + c, region.y + rw),
                    forall|c: int|
                        0 <= c < col ==> #[trigger] out@[row * w + c] == self.pixel_at(
                            region.x + c,
                            region.y + row,
                        ),
                decreases w - col,
            {
                let v = self.pixel(region.x + col, region.y + row);
                let ghost before = out@;
                out.push(v);
                proof {
                    assert forall|c: int, rw: int|
                        0 <= c < w && 0 <= rw < row implies #[trigger] out@[rw * w + c]
                            == self.pixel_at(region.x + c, region.y + rw) by {
                        lemma_index_below(w as int, row as int, c, rw);
                        assert(out@[rw * w + c] == before[rw * w + c]);
                    }
                }
                col = col + 1;
            }
            proof {
                lemma_next_row(w as int, row as int);
                assert forall|c: int, rw: int|
                    0 <= c < w && 0 <= rw < row + 1 implies #[trigger] out@[rw * w + c]
                        == self.pixel_at(region.x + c, region.y + rw) by {
                    if rw == row {
                        assert(out@[row * w + c] == self.pixel_at(region.x + c, region.y + row));
                    }
                }
            }
            row = row + 1;
        }
        assert(out@.len() == w * h) by (nonlinear_arith)
            requires
                out@.len() == h * w,
        ;
        let cropped = Raster { width: w, height: h, pixels: out };
        assert forall|c: int, rw: int|
            0 <= c < w && 0 <= rw < h implies #[trigger] cropped.pixel_at(c, rw) == self.pixel_at(
                region.x + c,
                region.y + rw,
            ) by {
            assert(cropped.pixels@[rw * w + c] == self.pixel_at(region.x + c, region.y + rw));
        }
        Ok(cropped)
    }
}

/// Row-major indexing stays within the pixel count.
proof fn lemma_index_below(width: int, height: int, col: int, row: int)
    requires
        0 <= col < width,
        0 <= row < height,
    ensures
        0 <= row * width + col < height * width,
        0 <= row * width,
{
    assert(0 <= row * width + col < height * width && 0 <= row * width) by (nonlinear_arith)
        requires
            0 <= col < width,
            0 <= row < height,
    ;
}

proof fn lemma_next_row(width: int, row: int)
    ensures
        row * width + width == (row + 1) * width,
{
    assert(row * width + width == (row + 1) * width) by (nonlinear_arith);
}

/// Crops the region at (`x`, `y`) of `width` by `height` pixels out of
/// `source`; `OutOfBounds` where it reaches past the source, which is never
/// clamped.
pub fn capture_region(source: &Raster, x: u32, y: u32, width: u32, height: u32) -> (r: Result<
    Raster,
    CropError,
>)
    requires
        source.wf(),
    ensures
        ({
            let region = CropRegion { x, y, width, height };
            &&& r is Ok <==> region_fits(region, source.spec_width(), source.spec_height())
            &&& !region_fits(region, source.spec_width(), source.spec_height()) ==> r == Err::<
                Raster,
                CropError,
            >(CropError::OutOfBounds)
            &&& r matches Ok(out) ==> {
                &&& out.wf()
                &&& out.spec_width() == width
                &&& out.spec_height() == height
                &&& forall|c: int, rw: int|
                    0 <= c < width && 0 <= rw < height ==> #[trigger] out.pixel_at(c, rw)
                        == source.pixel_at(x + c, y + rw)
            }
        }),
{
    let region = CropRegion { x, y, width, height };
    source.crop(&region)
}

} // verus!
