//! Decoded images as plain samples, and the two operations on them that the
//! `image` and `fast_image_resize` crates carry out: cropping and resampling.

use vstd::prelude::*;
use crate::geometry::Size;
use crate::geometry::min_int;
use fast_image_resize::images::Image as ResizeBuffer;
use fast_image_resize::{FilterType, PixelType, ResizeAlg, ResizeOptions, Resizer};
use image::{DynamicImage, ImageBuffer};

verus! {

/// How the samples of a pixel are laid out.
#[derive(Debug, Clone, Copy, PartialEq, Eq, Structural)]
pub enum PixelLayout {
    /// One 8-bit luminance sample per pixel.
    Luma8,
    /// Three 8-bit samples per pixel: red, green, blue.
    Rgb8,
}

/// The convolution kernel of a resampling.
#[derive(Debug, Clone, Copy, PartialEq, Eq, Structural)]
pub enum ResizeFilter {
    Box,
    Bilinear,
    Hamming,
    CatmullRom,
    Mitchell,
    Lanczos3,
}

impl PixelLayout {
    /// The number of samples of one pixel.
    pub open spec fn channels(self) -> int {
        match self {
            PixelLayout::Luma8 => 1,
            PixelLayout::Rgb8 => 3,
        }
    }

    /// The number of samples of one pixel.
    pub fn channel_count(&self) -> (r: usize)
        ensures
            r == self.channels(),
    {
        match self {
            PixelLayout::Luma8 => 1,
            PixelLayout::Rgb8 => 3,
        }
    }
}

/// What an image is: its size, its layout and its samples, row by row from
/// the top, each row from the left.
pub ghost struct Raster {
    pub width: int,
    pub height: int,
    pub layout: PixelLayout,
    pub samples: Seq<u8>,
}

impl Raster {
    /// The samples are exactly those of `width * height` pixels.
    pub open spec fn wf(self) -> bool {
        &&& 0 <= self.width <= u32::MAX
        &&& 0 <= self.height <= u32::MAX
        &&& self.samples.len() == self.width * self.height * self.layout.channels()
        &&& self.samples.len() <= isize::MAX
    }

    /// The width and the height.
    pub open spec fn size(self) -> Size {
        Size { x: self.width as u32, y: self.height as u32 }
    }

    /// The sample `c` of the pixel at column `x` and row `y`.
    pub open spec fn sample(self, x: int, y: int, c: int) -> u8 {
        self.samples[(y * self.width + x) * self.layout.channels() + c]
    }

    /// The part of this image that a crop at (`x`, `y`) of `width` by
    /// `height` keeps: the corner is moved into the image and the extent
    /// is cut to what lies right of and below the corner.
    pub open spec fn cropped(self, x: int, y: int, width: int, height: int) -> Raster {
        let left = min_int(x, self.width);
        let top = min_int(y, self.height);
        let w = min_int(width, self.width - left);
        let h = min_int(height, self.height - top);
        let row = w * self.layout.channels();
        Raster {
            width: w,
            height: h,
            layout: self.layout,
            samples: Seq::new(
                (h * row) as nat,
                |i: int| self.samples[((top + i / row) * self.width + left) * self.layout.channels() + i % row],
            ),
        }
    }
}

/// The place of a sample in its row and the row it stands in: for `x` below
/// `w` and `c` below `ch`, the sample at `(y * w + x) * ch + c` is number
/// `x * ch + c` of row `y` of rows of `w * ch` samples.
proof fn lemma_sample_place(x: int, y: int, c: int, w: int, ch: int)
    by (nonlinear_arith)
    requires
        0 <= x < w,
        0 <= y,
        0 <= c < ch,
    ensures
        (y * w + x) * ch + c == y * (w * ch) + (x * ch + c),
        0 <= x * ch + c < w * ch,
        ((y * w + x) * ch + c) / (w * ch) == y,
        ((y * w + x) * ch + c) % (w * ch) == x * ch + c,
{
}

/// A crop keeps the pixels of its region.
///
/// The pixel at column `x` and row `y` of what a crop at (`left`, `top`)
/// keeps is the pixel at column `left + x` and row `top + y` of the image,
/// for a corner inside the image.
pub proof fn lemma_cropped_sample(
    image: Raster,
    left: int,
    top: int,
    width: int,
    height: int,
    x: int,
    y: int,
    c: int,
)
    requires
        image.wf(),
        0 <= left <= image.width,
        0 <= top <= image.height,
        0 <= width,
        0 <= height,
        0 <= x < image.cropped(left, top, width, height).width,
        0 <= y < image.cropped(left, top, width, height).height,
        0 <= c < image.layout.channels(),
    ensures
        image.cropped(left, top, width, height).wf(),
        image.cropped(left, top, width, height).sample(x, y, c) == image.sample(
            left + x,
            top + y,
            c,
        ),
{
    let out = image.cropped(left, top, width, height);
    let ch = image.layout.channels();
    lemma_smaller_fits(out.width, out.height, image.width, image.height, image.layout);
    lemma_sample_place(x, y, c, out.width, ch);
    assert(0 <= y * (out.width * ch) + (x * ch + c) < out.height * (out.width * ch))
        by (nonlinear_arith)
        requires
            0 <= y < out.height,
            0 <= x * ch + c < out.width * ch,
    ;
    assert(out.width * out.height * ch == out.height * (out.width * ch)) by (nonlinear_arith);
    assert(((top + y) * image.width + left) * ch + (x * ch + c) == ((top + y) * image.width + (left
        + x)) * ch + c) by (nonlinear_arith);
}

/// A decoded image: 8-bit samples of `width * height` pixels.
#[derive(Debug)]
pub struct Image {
    width: u32,
    height: u32,
    layout: PixelLayout,
    data: Vec<u8>,
}

impl Clone for Image {
    fn clone(&self) -> (r: Self)
        ensures
            r@ == self@,
    {
        self.duplicate()
    }
}

impl View for Image {
    type V = Raster;

    closed spec fn view(&self) -> Raster {
        Raster {
            width: self.width as int,
            height: self.height as int,
            layout: self.layout,
            samples: self.data@,
        }
    }
}

/// The samples of the pixels whose red, green and blue samples are those
/// of the three planes: for each pixel its red, its green and its blue
/// sample, pixel after pixel.
pub open spec fn interleaved(red: Seq<u8>, green: Seq<u8>, blue: Seq<u8>) -> Seq<u8> {
    Seq::new(
        3 * red.len(),
        |j: int|
            if j % 3 == 0 {
                red[j / 3]
            } else if j % 3 == 1 {
                green[j / 3]
            } else {
                blue[j / 3]
            },
    )
}

/// The number of samples of an image of `width` by `height` pixels.
pub open spec fn sample_count(width: int, height: int, layout: PixelLayout) -> int {
    width * height * layout.channels()
}

/// Whether the samples of an image of that size can be held in memory.
pub open spec fn fits_memory(width: int, height: int, layout: PixelLayout) -> bool {
    sample_count(width, height, layout) <= isize::MAX
}

/// The number of samples of an image of `width` by `height` pixels.
fn sample_total(width: u32, height: u32, layout: PixelLayout) -> (r: u128)
    ensures
        r == sample_count(width as int, height as int, layout),
        r <= 0xffff_ffff * 0xffff_ffff * 3,
{
    let c: u128 = layout.channel_count() as u128;
    assert(width as u128 * height as u128 <= 0xffff_ffff * 0xffff_ffff) by (nonlinear_arith)
        requires
            width <= 0xffff_ffff,
            height <= 0xffff_ffff,
    ;
    let pixels: u128 = width as u128 * height as u128;
    assert(pixels * c <= 0xffff_ffff * 0xffff_ffff * 3) by (nonlinear_arith)
        requires
            pixels <= 0xffff_ffff * 0xffff_ffff,
            c <= 3,
    ;
    pixels * c
}

/// Whether the samples of an image of that size can be held in memory.
pub fn size_fits_memory(width: u32, height: u32, layout: PixelLayout) -> (r: bool)
    ensures
        r == fits_memory(width as int, height as int, layout),
{
    sample_total(width, height, layout) <= isize::MAX as u128
}

/// An image of `width` by `height` pixels with fewer pixels in neither axis
/// fits memory where the larger image does.
pub proof fn lemma_smaller_fits(w: int, h: int, width: int, height: int, layout: PixelLayout)
    by (nonlinear_arith)
    requires
        0 <= w <= width,
        0 <= h <= height,
        width * height * layout.channels() <= isize::MAX,
        layout.channels() == 1 || layout.channels() == 3,
    ensures
        w * h * layout.channels() <= isize::MAX,
{
}

/// Why an image could not be transformed.
#[derive(Debug, Clone, Copy, PartialEq, Eq, Structural)]
pub enum TransformError {
    /// The image has no pixels.
    ZeroArea,
    /// A resampled image would not fit in memory.
    TooLarge,
}

/// `image::DynamicImage::crop_imm` on the image as an `ImageLuma8` or an
/// `ImageRgb8`. It moves the corner into the image, cuts the extent to what
/// lies right of and below the corner, and copies the pixels of that region
/// into a new buffer, row by row.
#[verifier::external_body]
fn crop_image(img: &Image, x: u32, y: u32, width: u32, height: u32) -> (r: Image)
    requires
        img@.wf(),
    ensures
        r@ == img@.cropped(x as int, y as int, width as int, height as int),
{
    let (w, h, data) = (img.width, img.height, img.data.clone());
    let src = match img.layout {
        PixelLayout::Luma8 => DynamicImage::ImageLuma8(ImageBuffer::from_raw(w, h, data).unwrap()),
        PixelLayout::Rgb8 => DynamicImage::ImageRgb8(ImageBuffer::from_raw(w, h, data).unwrap()),
    };
    let out = src.crop_imm(x, y, width, height);
    Image { width: out.width(), height: out.height(), layout: img.layout, data: out.into_bytes() }
}

/// That `out` is an image which the resizer gives when it resamples `src`
/// to `width` by `height` pixels with the kernel `filter`.
///
/// This is a relation and no function: which samples the resizer computes
/// depends on the instructions of the processor it runs on, so two machines
/// may give two images for one source. Nothing is claimed of the relation
/// but that the image which `resize_image` returns stands in it.
pub uninterp spec fn resampled(
    src: Raster,
    width: int,
    height: int,
    filter: ResizeFilter,
    out: Raster,
) -> bool;

/// `fast_image_resize::Resizer::resize` with a convolution of the kernel
/// `fast_image_resize::FilterType` that has the name of `filter`, from the
/// image, read by `images::Image::from_vec_u8`, into a new buffer made by
/// `images::Image::new` of `dst_width` by `dst_height` pixels of the same
/// pixel type.
///
/// Neither call fails on these arguments: the source buffer has exactly
/// the length of its pixels and bytes need no alignment, the pixel types
/// are the same, and the source is not cropped. The result is the new
/// buffer, of the size asked for; of its samples only `resampled` is
/// claimed.
#[verifier::external_body]
fn resize_image(img: &Image, dst_width: u32, dst_height: u32, filter: ResizeFilter) -> (r: Option<
    Image,
>)
    requires
        img@.wf(),
        fits_memory(dst_width as int, dst_height as int, img@.layout),
    ensures
        r is Some,
        r matches Some(out) ==> out@.width == dst_width && out@.height == dst_height,
        r matches Some(out) ==> out@.layout == img@.layout,
        r matches Some(out) ==> resampled(img@, dst_width as int, dst_height as int, filter, out@),
{
    let kind = match img.layout { PixelLayout::Luma8 => PixelType::U8, PixelLayout::Rgb8 => PixelType::U8x3 };
    let kernel = match filter {
        ResizeFilter::Box => FilterType::Box,
        ResizeFilter::Bilinear => FilterType::Bilinear,
        ResizeFilter::Hamming => FilterType::Hamming,
        ResizeFilter::CatmullRom => FilterType::CatmullRom,
        ResizeFilter::Mitchell => FilterType::Mitchell,
        ResizeFilter::Lanczos3 => FilterType::Lanczos3,
    };
    let src = ResizeBuffer::from_vec_u8(img.width, img.height, img.data.clone(), kind).ok()?;
    let mut dst = ResizeBuffer::new(dst_width, dst_height, kind);
    let options = ResizeOptions::new().resize_alg(ResizeAlg::Convolution(kernel));
    Resizer::new().resize(&src, &mut dst, &options).ok()?;
    Some(Image { width: dst_width, height: dst_height, layout: img.layout, data: dst.into_vec() })
}

impl Image {
    #[verifier::type_invariant]
    spec fn well_formed(self) -> bool {
        &&& self.data@.len() == self.width * self.height * self.layout.channels()
        &&& self.data@.len() <= isize::MAX
    }

    /// An image of `width` by `height` pixels with the samples `data`;
    /// `None` unless `data` holds exactly those pixels' samples, and no more
    /// of them than memory can hold.
    pub fn new(width: u32, height: u32, layout: PixelLayout, data: Vec<u8>) -> (r: Option<Image>)
        ensures
            r is Some <==> data@.len() == sample_count(width as int, height as int, layout)
                && fits_memory(width as int, height as int, layout),
            r matches Some(img) ==> img@ == (Raster {
                width: width as int,
                height: height as int,
                layout,
                samples: data@,
            }) && img@.wf(),
    {
        let total = sample_total(width, height, layout);
        if data.len() as u128 == total && total <= isize::MAX as u128 {
            Some(Image { width, height, layout, data })
        } else {
            None
        }
    }

    /// The RGB image whose pixels take their red, green and blue samples
    /// from the planes `red`, `green` and `blue`, each of which holds one
    /// sample per pixel, row by row; `None` unless each plane holds exactly
    /// `width * height` samples.
    pub fn from_planes(
        width: u32,
        height: u32,
        red: &Vec<u8>,
        green: &Vec<u8>,
        blue: &Vec<u8>,
    ) -> (r: Option<Image>)
        ensures
            r is Some <==> red@.len() == width * height && green@.len() == width * height
                && blue@.len() == width * height && fits_memory(
                width as int,
                height as int,
                PixelLayout::Rgb8,
            ),
            r matches Some(img) ==> img@ == (Raster {
                width: width as int,
                height: height as int,
                layout: PixelLayout::Rgb8,
                samples: interleaved(red@, green@, blue@),
            }),
    {
        let total = sample_total(width, height, PixelLayout::Rgb8);
        let n = red.len();
        if n as u128 * 3 != total || green.len() != n || blue.len() != n || total
            > isize::MAX as u128 {
            return None;
        }
        let mut data: Vec<u8> = Vec::new();
        let mut i: usize = 0;
        while i < n
            invariant
                i <= n,
                n == red@.len(),
                n == green@.len(),
                n == blue@.len(),
                data@.len() == 3 * i,
                forall|k: int| 0 <= k < i ==> data@[3 * k] == red@[k],
                forall|k: int| 0 <= k < i ==> data@[3 * k + 1] == green@[k],
                forall|k: int| 0 <= k < i ==> data@[3 * k + 2] == blue@[k],
            decreases n - i,
        {
            data.push(red[i]);
            data.push(green[i]);
            data.push(blue[i]);
            i += 1;
        }
        assert(data@ =~= interleaved(red@, green@, blue@)) by {
            assert forall|j: int| 0 <= j < 3 * n implies data@[j] == interleaved(
                red@,
                green@,
                blue@,
            )[j] by {
                let k = j / 3;
                assert(j == 3 * k || j == 3 * k + 1 || j == 3 * k + 2);
            }
        }
        Some(Image { width, height, layout: PixelLayout::Rgb8, data })
    }

    /// The width in pixels.
    pub fn width(&self) -> (r: u32)
        ensures
            r == self@.width,
    {
        self.width
    }

    /// The height in pixels.
    pub fn height(&self) -> (r: u32)
        ensures
            r == self@.height,
    {
        self.height
    }

    /// How the samples of a pixel are laid out.
    pub fn layout(&self) -> (r: PixelLayout)
        ensures
            r == self@.layout,
    {
        self.layout
    }

    /// The width and the height. Every image holds exactly the samples of
    /// its pixels.
    pub fn dimensions(&self) -> (r: Size)
        ensures
            r == self@.size(),
            self@.wf(),
    {
        proof {
            use_type_invariant(self);
        }
        Size { x: self.width, y: self.height }
    }

    /// The samples, row by row.
    pub fn as_raw(&self) -> (r: &Vec<u8>)
        ensures
            r@ == self@.samples,
    {
        &self.data
    }

    /// The samples, row by row.
    pub fn into_raw(self) -> (r: Vec<u8>)
        ensures
            r@ == self@.samples,
    {
        self.data
    }

    /// A copy of this image.
    pub fn duplicate(&self) -> (r: Image)
        ensures
            r@ == self@,
            r@.wf(),
    {
        proof {
            use_type_invariant(self);
        }
        let data = self.data.clone();
        assert(data@ =~= self.data@);
        Image { width: self.width, height: self.height, layout: self.layout, data }
    }

    /// The part of this image at (`x`, `y`) of `width` by `height` pixels,
    /// as far as it lies inside the image.
    pub fn crop_imm(&self, x: u32, y: u32, width: u32, height: u32) -> (r: Image)
        ensures
            r@ == self@.cropped(x as int, y as int, width as int, height as int),
            r@.wf(),
    {
        proof {
            use_type_invariant(self);
        }
        let r = crop_image(self, x, y, width, height);
        proof {
            use_type_invariant(&r);
        }
        r
    }

    /// This image resampled to `dst_width` by `dst_height` pixels with the
    /// kernel `filter`.
    ///
    /// It succeeds exactly when memory can hold an image of the size asked
    /// for, and fails with `TooLarge` when it cannot. The result has the
    /// size asked for and the layout of this image, and is what the resizer
    /// gives for this image, that size and that kernel.
    pub fn resize_fast(&self, dst_width: u32, dst_height: u32, filter: ResizeFilter) -> (r: Result<
        Image,
        TransformError,
    >)
        ensures
            r is Ok <==> fits_memory(dst_width as int, dst_height as int, self@.layout),
            r matches Err(e) ==> e == TransformError::TooLarge,
            r matches Ok(img) ==> {
                &&& img@.width == dst_width
                &&& img@.height == dst_height
                &&& img@.layout == self@.layout
                &&& img@.wf()
                &&& resampled(self@, dst_width as int, dst_height as int, filter, img@)
            },
    {
        if !size_fits_memory(dst_width, dst_height, self.layout) {
            return Err(TransformError::TooLarge);
        }
        proof {
            use_type_invariant(self);
        }
        let img = resize_image(self, dst_width, dst_height, filter).unwrap();
        proof {
            use_type_invariant(&img);
        }
        Ok(img)
    }

}

} // verus!
