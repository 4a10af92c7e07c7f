//! Row-major RGB rasters held as raw bytes, three per pixel, and the two image
//! operations that the viewer takes from the `image` crate: cropping and
//! nearest-neighbour resizing.

use vstd::prelude::*;
use crate::color::Rgb;
use image::imageops::{crop_imm, resize, FilterType};
use image::RgbImage;

verus! {

/// Largest byte count of a resample buffer (including the intermediate one
/// that the resize keeps in 32-bit floats, four channels per pixel).
pub const RESAMPLE_LIMIT: u64 = 0x7fff_ffff;

/// A `width` x `height` grid of RGB pixels, row by row, three bytes each.
#[derive(Debug)]
pub struct Raster {
    pub width: u32,
    pub height: u32,
    pub data: Vec<u8>,
}

/// Byte index of the first channel of pixel `(x, y)` in a raster `width` wide.
pub open spec fn pixel_index(width: int, x: int, y: int) -> int {
    3 * (y * width + x)
}

/// The bytes of the `w` x `h` rectangle at `(left, top)` of a raster `width`
/// wide, row by row.
pub open spec fn cropped_bytes(data: Seq<u8>, width: int, left: int, top: int, w: int, h: int) -> Seq<u8> {
    Seq::new(
        (3 * w * h) as nat,
        |i: int| data[pixel_index(width, left + (i / 3) % w, top + (i / 3) / w) + i % 3],
    )
}

/// What the `image` crate's nearest-neighbour resize makes of the raw RGB bytes
/// of a `width` x `height` image at `new_width` x `new_height`.
pub uninterp spec fn nearest_resized(data: Seq<u8>, width: nat, height: nat, new_width: nat, new_height: nat) -> Seq<u8>;

pub proof fn lemma_pixel_in_range(width: int, height: int, x: int, y: int)
    requires
        0 <= x < width,
        0 <= y < height,
    ensures
        0 <= pixel_index(width, x, y),
        pixel_index(width, x, y) + 3 <= 3 * width * height,
{
    assert(y * width + x + 1 <= width * height) by (nonlinear_arith)
        requires 0 <= x < width, 0 <= y < height;
    assert(3 * width * height == 3 * (width * height)) by (nonlinear_arith);
}

impl Raster {
    /// The byte buffer holds exactly three bytes per pixel.
    pub open spec fn wf(self) -> bool {
        self.data@.len() == 3 * self.width * self.height
    }

    pub open spec fn pixel(self, x: int, y: int) -> Rgb {
        let i = pixel_index(self.width as int, x, y);
        Rgb { r: self.data@[i], g: self.data@[i + 1], b: self.data@[i + 2] }
    }

    /// Row `y` as a sequence of colors.
    pub open spec fn row(self, y: int) -> Seq<Rgb> {
        Seq::new(self.width as nat, |x: int| self.pixel(x, y))
    }

    /// A raster over `data`, when it holds exactly three bytes per pixel.
    pub fn new(width: u32, height: u32, data: Vec<u8>) -> (r: Option<Raster>)
        ensures
            r is Some <==> data@.len() == 3 * width * height,
            r matches Some(g) ==> g.width == width && g.height == height && g.data@ == data@,
    {
        assert(width * height <= 0xffff_ffff_ffff_ffff) by (nonlinear_arith)
            requires width <= 0xffff_ffff, height <= 0xffff_ffff;
        let wh: u128 = width as u128 * height as u128;
        assert(3 * width * height == 3 * (width * height)) by (nonlinear_arith);
        if data.len() as u128 == 3 * wh {
            Some(Raster { width, height, data })
        } else {
            None
        }
    }

    /// The color of pixel `(x, y)`.
    pub fn get_pixel(&self, x: u32, y: u32) -> (r: Rgb)
        requires
            self.wf(),
            x < self.width,
            y < self.height,
        ensures
            r == self.pixel(x as int, y as int),
    {
        proof {
            lemma_pixel_in_range(self.width as int, self.height as int, x as int, y as int);
            assert(y * self.width <= y * self.width + x);
            assert(self.data.len() == self.data@.len());
        }
        let i: usize = 3 * (y as usize * self.width as usize + x as usize);
        Rgb { r: self.data[i], g: self.data[i + 1], b: self.data[i + 2] }
    }
}

/// Relies on `image::imageops::crop_imm` followed by `SubImage::to_image`: for
/// a rectangle inside the image they copy its pixels, row by row, into a new
/// buffer of exactly that size.
#[verifier::external_body]
pub(crate) fn crop_raster(src: &Raster, left: u32, top: u32, w: u32, h: u32) -> (r: Raster)
    requires
        src.wf(),
        left + w <= src.width,
        top + h <= src.height,
    ensures
        r.wf(),
        r.width == w,
        r.height == h,
        r.data@ == cropped_bytes(src.data@, src.width as int, left as int, top as int, w as int, h as int),
{
    let img = RgbImage::from_raw(src.width, src.height, src.data.clone()).unwrap();
    let out = crop_imm(&img, left, top, w, h).to_image();
    Raster { width: out.width(), height: out.height(), data: out.into_raw() }
}

/// Relies on `image::imageops::resize` with `FilterType::Nearest`: it returns a
/// fresh `new_width` x `new_height` buffer (allocated by `ImageBuffer::new`)
/// whose bytes depend on the input bytes and sizes alone.
#[verifier::external_body]
pub(crate) fn resize_raster(src: &Raster, new_width: u32, new_height: u32) -> (r: Raster)
    requires
        src.wf(),
        src.width >= 1,
        src.height >= 1,
        new_width >= 1,
        new_height >= 1,
        16 * src.width * new_height <= RESAMPLE_LIMIT,
        3 * new_width * new_height <= RESAMPLE_LIMIT,
    ensures
        r.wf(),
        r.width == new_width,
        r.height == new_height,
        r.data@ == nearest_resized(src.data@, src.width as nat, src.height as nat, new_width as nat, new_height as nat),
{
    let img = RgbImage::from_raw(src.width, src.height, src.data.clone()).unwrap();
    let out = resize(&img, new_width, new_height, FilterType::Nearest);
    Raster { width: out.width(), height: out.height(), data: out.into_raw() }
}

} // verus!
