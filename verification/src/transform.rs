//! From a decoded frame and the view parameters to the image that is
//! displayed: which steps are needed, and the steps themselves.
//!
//! The steps, each left out when its condition is false, are: shrink the
//! image when the zoom is below 1:1; crop it to the window at the pan; when
//! the zoom is above 1:1, crop to the part that is visible at that zoom and
//! scale that part back up; scale an image that is smaller than the window
//! up to the window.

use vstd::prelude::*;
use crate::geometry::{
    clamp_int, dimensions_for_window, fit_to_window, min_int, round_div, shrink_by_zoom,
    translate_norm_to_pixels, translate_pixels, visible_at_zoom, Size, Translate, ZOOM_UNIT,
};
use crate::laws::lemma_fits_without_upscale;
use crate::preview_filter_type::PreviewFilterType;
use crate::previewer::VSPreviewer;
use crate::raster::{
    fits_memory, resampled, size_fits_memory, Image, PixelLayout, Raster, ResizeFilter,
    TransformError,
};
use crate::state::PreviewState;

verus! {

/// A region of an image: its top left corner and its extent.
#[derive(Debug, Clone, Copy, PartialEq, Eq, Structural)]
pub struct CropRect {
    pub x: u32,
    pub y: u32,
    pub width: u32,
    pub height: u32,
}

/// The magnification: the top left part of `crop` size is cut out and
/// scaled to `target`.
#[derive(Debug, Clone, Copy, PartialEq, Eq, Structural)]
pub struct ZoomStep {
    pub crop: Size,
    pub target: Size,
}

/// The scaling up to the window.
#[derive(Debug, Clone, Copy, PartialEq, Eq, Structural)]
pub struct UpscaleStep {
    pub target: Size,
    pub filter: ResizeFilter,
}

/// The steps that turn a decoded frame into the displayed image, in the
/// order in which they are carried out.
#[derive(Debug, Clone, Copy, PartialEq, Eq, Structural)]
pub struct TransformPlan {
    /// Shrink the whole image to this size with a box filter.
    pub unzoom: Option<Size>,
    /// Crop to this region.
    pub crop: Option<CropRect>,
    /// Magnify.
    pub zoom: Option<ZoomStep>,
    /// Scale up to the window.
    pub upscale: Option<UpscaleStep>,
}

impl PreviewFilterType {
    /// The kernel that the filter resamples with. `Gpu` and `Point` both
    /// stand for the box kernel.
    pub open spec fn kernel(self) -> ResizeFilter {
        match self {
            PreviewFilterType::Gpu => ResizeFilter::Box,
            PreviewFilterType::Point => ResizeFilter::Box,
            PreviewFilterType::Bilinear => ResizeFilter::Bilinear,
            PreviewFilterType::Hamming => ResizeFilter::Hamming,
            PreviewFilterType::CatmullRom => ResizeFilter::CatmullRom,
            PreviewFilterType::Mitchell => ResizeFilter::Mitchell,
            PreviewFilterType::Lanczos3 => ResizeFilter::Lanczos3,
        }
    }

    /// The kernel that the filter resamples with.
    pub fn resize_filter(&self) -> (r: ResizeFilter)
        ensures
            r == self.kernel(),
    {
        match self {
            PreviewFilterType::Gpu => ResizeFilter::Box,
            PreviewFilterType::Point => ResizeFilter::Box,
            PreviewFilterType::Bilinear => ResizeFilter::Bilinear,
            PreviewFilterType::Hamming => ResizeFilter::Hamming,
            PreviewFilterType::CatmullRom => ResizeFilter::CatmullRom,
            PreviewFilterType::Mitchell => ResizeFilter::Mitchell,
            PreviewFilterType::Lanczos3 => ResizeFilter::Lanczos3,
        }
    }
}

/// The number `v` as a `u32`, the nearest where it has none.
pub open spec fn saturate(v: int) -> u32 {
    clamp_int(v, 0, u32::MAX as int) as u32
}

/// The image is shrunk before anything else: the zoom is below 1:1 and the
/// image is not to be scaled up to the window.
pub open spec fn unzooms(state: PreviewState) -> bool {
    state.zoom_factor < ZOOM_UNIT && !state.upscale_to_window
}

/// The extent of the image along one axis once it has been shrunk, in
/// thousandths of a pixel.
pub open spec fn extent_milli(src: int, state: PreviewState) -> int {
    if unzooms(state) {
        src * state.zoom_factor
    } else {
        src * 1000
    }
}

/// The size that the image is shrunk to.
pub open spec fn unzoom_size(src: Size, state: PreviewState) -> Size {
    Size {
        x: round_div(src.x * state.zoom_factor, 1000) as u32,
        y: round_div(src.y * state.zoom_factor, 1000) as u32,
    }
}

/// The image is cropped: it is larger than the window in some axis, or it
/// is magnified.
pub open spec fn crops(src: Size, state: PreviewState, win_size: Size) -> bool {
    ||| extent_milli(src.x as int, state) > win_size.x * 1000
    ||| extent_milli(src.y as int, state) > win_size.y * 1000
    ||| state.zoom_factor > ZOOM_UNIT
}

/// The pan shortens the region: some pan is positive and the image is not
/// magnified.
pub open spec fn shifts(t: Translate, state: PreviewState) -> bool {
    (t.x > 0 || t.y > 0) && state.zoom_factor <= ZOOM_UNIT
}

/// The region is cut to the window: the image is magnified, or the display
/// is not asked to shrink it.
pub open spec fn limits(state: PreviewState) -> bool {
    state.zoom_factor > ZOOM_UNIT || !state.fit_to_window
}

/// The corner of the region along one axis: the pan, or 0 for a negative
/// normalized pan.
pub open spec fn crop_offset(norm: int, t: int) -> u32 {
    if norm < 0 {
        0
    } else {
        saturate(t)
    }
}

/// The extent of the region along one axis, in whole pixels: the extent of
/// the image, less the pan where the pan shortens it, and no more than the
/// window where the region is cut to the window.
pub open spec fn crop_len(extent: int, t: int, win: int, shift: bool, limit: bool) -> u32 {
    let shifted = if shift {
        extent - t * 1000
    } else {
        extent
    };
    let limited = if limit {
        min_int(shifted, win * 1000)
    } else {
        shifted
    };
    saturate(limited / 1000)
}

/// The region that the image is cropped to.
pub open spec fn crop_rect(src: Size, state: PreviewState, win_size: Size) -> CropRect {
    let t = translate_pixels(state.translate_norm, src, win_size, state.zoom_factor);
    let shift = shifts(t, state);
    let limit = limits(state);
    CropRect {
        x: crop_offset(state.translate_norm.x as int, t.x as int),
        y: crop_offset(state.translate_norm.y as int, t.y as int),
        width: crop_len(
            extent_milli(src.x as int, state),
            t.x as int,
            win_size.x as int,
            shift,
            limit,
        ),
        height: crop_len(
            extent_milli(src.y as int, state),
            t.y as int,
            win_size.y as int,
            shift,
            limit,
        ),
    }
}

/// The magnification of a region of `extent`: the part that is visible at
/// the zoom, which is the extent divided by the zoom factor, is scaled to
/// the extent, or to the window where the image is scaled up to the window.
pub open spec fn zoom_step(extent: Size, state: PreviewState, win_size: Size) -> ZoomStep {
    ZoomStep {
        crop: Size {
            x: round_div(extent.x * 1000, state.zoom_factor as int) as u32,
            y: round_div(extent.y * 1000, state.zoom_factor as int) as u32,
        },
        target: if state.upscale_to_window {
            fit_to_window(win_size, extent)
        } else {
            extent
        },
    }
}

/// What a crop of `len` pixels at `offset` keeps of `dim` pixels.
pub open spec fn crop_extent(dim: int, offset: int, len: int) -> int {
    min_int(len, dim - min_int(offset, dim))
}

impl CropRect {
    /// The size of what the crop keeps of an image of size `dim`.
    pub open spec fn kept(self, dim: Size) -> Size {
        Size {
            x: crop_extent(dim.x as int, self.x as int, self.width as int) as u32,
            y: crop_extent(dim.y as int, self.y as int, self.height as int) as u32,
        }
    }

    /// The size of what the crop keeps of an image of size `dim`.
    pub fn kept_size(&self, dim: Size) -> (r: Size)
        ensures
            r == self.kept(dim),
    {
        let left: u32 = if self.x <= dim.x { self.x } else { dim.x };
        let top: u32 = if self.y <= dim.y { self.y } else { dim.y };
        Size {
            x: if self.width <= dim.x - left { self.width } else { dim.x - left },
            y: if self.height <= dim.y - top { self.height } else { dim.y - top },
        }
    }

    /// The width and the height of the region.
    pub open spec fn extent(self) -> Size {
        Size { x: self.width, y: self.height }
    }
}

impl TransformPlan {
    /// Some step resamples the image.
    pub open spec fn resamples(self) -> bool {
        self.unzoom is Some || self.zoom is Some || self.upscale is Some
    }

    /// Every image that a step resamples to can be held in memory.
    pub open spec fn fits(self, layout: PixelLayout) -> bool {
        &&& self.unzoom matches Some(s) ==> fits_memory(s.x as int, s.y as int, layout)
        &&& self.zoom matches Some(z) ==> fits_memory(z.target.x as int, z.target.y as int, layout)
        &&& self.upscale matches Some(u) ==> fits_memory(
            u.target.x as int,
            u.target.y as int,
            layout,
        )
    }

    /// The size of the image after the steps up to the magnification.
    pub open spec fn zoomed_size(self, src: Size) -> Size {
        let shrunk = match self.unzoom {
            Some(s) => s,
            None => src,
        };
        let cropped = match self.crop {
            Some(c) => c.kept(shrunk),
            None => shrunk,
        };
        match self.zoom {
            Some(z) => z.target,
            None => cropped,
        }
    }

    /// The size of the image that the steps give from an image of `src`.
    pub open spec fn output_size(self, src: Size) -> Size {
        match self.upscale {
            Some(u) => u.target,
            None => self.zoomed_size(src),
        }
    }

    /// What the crop keeps of `image`.
    pub open spec fn cropped(self, image: Raster) -> Raster {
        match self.crop {
            Some(c) => image.cropped(c.x as int, c.y as int, c.width as int, c.height as int),
            None => image,
        }
    }

    /// The image `out` is what the first step gives of `image`: an image
    /// that the resizer gives for `image`, the size to shrink to and the
    /// box kernel; `image` itself where the plan does not shrink.
    pub open spec fn shrinks(self, image: Raster, out: Raster) -> bool {
        match self.unzoom {
            Some(s) => resampled(image, s.x as int, s.y as int, ResizeFilter::Box, out),
            None => out == image,
        }
    }

    /// What is handed to the magnification, given the shrunk image: what
    /// the crop keeps of it, and of that, where the plan magnifies, the top
    /// left part of the size that is visible at the zoom.
    pub open spec fn zoom_source(self, shrunk: Raster) -> Raster {
        match self.zoom {
            Some(z) => self.cropped(shrunk).cropped(0, 0, z.crop.x as int, z.crop.y as int),
            None => self.cropped(shrunk),
        }
    }

    /// The image `out` is what the magnification gives of the part `part`
    /// that is handed to it: an image that the resizer gives for `part`,
    /// the size to magnify to and the box kernel; `part` itself where the
    /// plan does not magnify.
    pub open spec fn magnifies(self, part: Raster, out: Raster) -> bool {
        match self.zoom {
            Some(z) => resampled(part, z.target.x as int, z.target.y as int, ResizeFilter::Box, out),
            None => out == part,
        }
    }

    /// The image `out` is what the scaling up to the window gives of
    /// `image`: an image that the resizer gives for `image`, the size to
    /// scale to and the kernel of the step; `image` itself where the plan
    /// does not scale up.
    pub open spec fn upscales(self, image: Raster, out: Raster) -> bool {
        match self.upscale {
            Some(u) => resampled(image, u.target.x as int, u.target.y as int, u.filter, out),
            None => out == image,
        }
    }

    /// The steps from `orig` over the shrunk image `shrunk` and the
    /// magnified image `zoomed` to `out`: each resampling is handed what the
    /// step before it gave, and the crops stand between the shrinking and
    /// the magnification.
    pub open spec fn steps(self, orig: Raster, shrunk: Raster, zoomed: Raster, out: Raster) -> bool {
        &&& self.shrinks(orig, shrunk)
        &&& self.magnifies(self.zoom_source(shrunk), zoomed)
        &&& self.upscales(zoomed, out)
    }

    /// The image `out` is one that the steps of the plan give of `orig`.
    pub open spec fn gives(self, orig: Raster, out: Raster) -> bool {
        exists|shrunk: Raster, zoomed: Raster| self.steps(orig, shrunk, zoomed, out)
    }

    /// The first step: shrinks `orig`, or hands on a copy of it where the
    /// plan does not shrink.
    pub fn shrink(&self, orig: &Image) -> (r: Result<Image, TransformError>)
        ensures
            r is Ok <==> (self.unzoom matches Some(s) ==> fits_memory(
                s.x as int,
                s.y as int,
                orig@.layout,
            )),
            r matches Err(e) ==> e == TransformError::TooLarge,
            r matches Ok(out) ==> self.shrinks(orig@, out@) && out@.layout == orig@.layout
                && out@.wf() && out@.size() == match self.unzoom {
                Some(s) => s,
                None => orig@.size(),
            },
    {
        match self.unzoom {
            Some(s) => orig.resize_fast(s.x, s.y, ResizeFilter::Box),
            None => Ok(orig.duplicate()),
        }
    }

    /// The crops between the shrinking and the magnification: what is
    /// handed to the magnification.
    pub fn crop_steps(&self, shrunk: &Image) -> (r: Image)
        ensures
            r@ == self.zoom_source(shrunk@),
            r@.wf(),
    {
        let cropped: Image = match self.crop {
            Some(c) => shrunk.crop_imm(c.x, c.y, c.width, c.height),
            None => shrunk.duplicate(),
        };
        match self.zoom {
            Some(z) => cropped.crop_imm(0, 0, z.crop.x, z.crop.y),
            None => cropped,
        }
    }

    /// The magnification of the part that is handed to it.
    pub fn magnify(&self, part: Image) -> (r: Result<Image, TransformError>)
        ensures
            r is Ok <==> (self.zoom matches Some(z) ==> fits_memory(
                z.target.x as int,
                z.target.y as int,
                part@.layout,
            )),
            r matches Err(e) ==> e == TransformError::TooLarge,
            r matches Ok(out) ==> self.magnifies(part@, out@) && out@.layout == part@.layout
                && out@.wf() && out@.size() == match self.zoom {
                Some(z) => z.target,
                None => part@.size(),
            },
    {
        match self.zoom {
            Some(z) => part.resize_fast(z.target.x, z.target.y, ResizeFilter::Box),
            None => {
                let _size: Size = part.dimensions();
                Ok(part)
            },
        }
    }

    /// The scaling up to the window.
    pub fn upscale_to_window(&self, image: Image) -> (r: Result<Image, TransformError>)
        ensures
            r is Ok <==> (self.upscale matches Some(u) ==> fits_memory(
                u.target.x as int,
                u.target.y as int,
                image@.layout,
            )),
            r matches Err(e) ==> e == TransformError::TooLarge,
            r matches Ok(out) ==> self.upscales(image@, out@) && out@.layout == image@.layout
                && out@.wf() && out@.size() == match self.upscale {
                Some(u) => u.target,
                None => image@.size(),
            },
    {
        match self.upscale {
            Some(u) => image.resize_fast(u.target.x, u.target.y, u.filter),
            None => {
                let _size: Size = image.dimensions();
                Ok(image)
            },
        }
    }

    /// Whether every image that a step resamples to can be held in memory.
    pub fn fits_memory(&self, layout: PixelLayout) -> (r: bool)
        ensures
            r == self.fits(layout),
    {
        let a = match self.unzoom {
            Some(s) => size_fits_memory(s.x, s.y, layout),
            None => true,
        };
        let b = match self.zoom {
            Some(z) => size_fits_memory(z.target.x, z.target.y, layout),
            None => true,
        };
        let c = match self.upscale {
            Some(u) => size_fits_memory(u.target.x, u.target.y, layout),
            None => true,
        };
        a && b && c
    }
}

/// The steps up to the magnification for an image of `src` under `state`
/// in a window of `win_size`.
pub open spec fn plan_to_zoom(src: Size, state: PreviewState, win_size: Size) -> TransformPlan {
    TransformPlan {
        unzoom: if unzooms(state) {
            Some(unzoom_size(src, state))
        } else {
            None
        },
        crop: if crops(src, state, win_size) {
            Some(crop_rect(src, state, win_size))
        } else {
            None
        },
        zoom: if state.zoom_factor > ZOOM_UNIT {
            Some(zoom_step(crop_rect(src, state, win_size).extent(), state, win_size))
        } else {
            None
        },
        upscale: None,
    }
}

/// The image is smaller than the window in some axis.
pub open spec fn smaller_than(current: Size, win_size: Size) -> bool {
    current.x < win_size.x || current.y < win_size.y
}

/// The scaling up to the window of an image of size `current`: asked for,
/// not left to the texture sampler, of an image that is smaller than the
/// window in some axis, and changing the size.
pub open spec fn upscale_step(current: Size, state: PreviewState, win_size: Size) -> Option<
    UpscaleStep,
> {
    if state.upscale_to_window && state.upsampling_filter != PreviewFilterType::Gpu
        && smaller_than(current, win_size) && fit_to_window(win_size, current) != current {
        Some(
            UpscaleStep {
                target: fit_to_window(win_size, current),
                filter: state.upsampling_filter.kernel(),
            },
        )
    } else {
        None
    }
}

/// The steps for an image of `src` under `state` in a window of `win_size`.
pub open spec fn plan_for(src: Size, state: PreviewState, win_size: Size) -> TransformPlan {
    let first = plan_to_zoom(src, state, win_size);
    TransformPlan { upscale: upscale_step(first.zoomed_size(src), state, win_size), ..first }
}

fn saturate_to_u32(v: i128) -> (r: u32)
    ensures
        r == saturate(v as int),
{
    if v < 0 {
        0
    } else if v > 0xffff_ffff {
        0xffff_ffff
    } else {
        v as u32
    }
}

fn axis_crop_offset(norm: i64, t: i64) -> (r: u32)
    ensures
        r == crop_offset(norm as int, t as int),
{
    if norm < 0 {
        0
    } else {
        saturate_to_u32(t as i128)
    }
}

fn axis_crop_len(extent: u64, t: i64, win: u32, shift: bool, limit: bool) -> (r: u32)
    requires
        extent <= 0xffff_ffff * 1000,
    ensures
        r == crop_len(extent as int, t as int, win as int, shift, limit),
{
    let shifted: i128 = if shift {
        extent as i128 - t as i128 * 1000
    } else {
        extent as i128
    };
    let bound: i128 = win as i128 * 1000;
    let limited: i128 = if limit && bound < shifted {
        bound
    } else {
        shifted
    };
    if limited < 0 {
        0
    } else {
        saturate_to_u32(limited / 1000)
    }
}

/// The extent of the image along one axis once it has been shrunk, in
/// thousandths of a pixel.
fn axis_extent_milli(src: u32, state: &PreviewState) -> (r: u64)
    ensures
        r == extent_milli(src as int, *state),
        r <= 0xffff_ffff * 1000,
{
    if state.zoom_factor < ZOOM_UNIT && !state.upscale_to_window {
        assert(src as u64 * state.zoom_factor as u64 <= 0xffff_ffff * 1000) by (nonlinear_arith)
            requires
                src <= 0xffff_ffff,
                state.zoom_factor < 1000,
        ;
        src as u64 * state.zoom_factor as u64
    } else {
        src as u64 * 1000
    }
}

/// The steps that turn an image of size `src` into the image displayed
/// under `state` in a window of `win_size`.
pub fn transform_plan(src: Size, state: &PreviewState, win_size: &Size) -> (r: TransformPlan)
    ensures
        r == plan_for(src, *state, *win_size),
{
    let zoom = state.zoom_factor;
    let ext_x = axis_extent_milli(src.x, state);
    let ext_y = axis_extent_milli(src.y, state);
    let unzoom = if zoom < ZOOM_UNIT && !state.upscale_to_window {
        Some(Size { x: shrink_by_zoom(src.x, zoom), y: shrink_by_zoom(src.y, zoom) })
    } else {
        None
    };
    let shrunk = match unzoom {
        Some(s) => s,
        None => src,
    };
    let mut crop: Option<CropRect> = None;
    let mut zoom_step_opt: Option<ZoomStep> = None;
    let mut current = shrunk;
    if ext_x > win_size.x as u64 * 1000 || ext_y > win_size.y as u64 * 1000 || zoom > ZOOM_UNIT {
        let t = translate_norm_to_pixels(&state.translate_norm, &src, win_size, zoom);
        let shift = (t.x > 0 || t.y > 0) && zoom <= ZOOM_UNIT;
        let limit = zoom > ZOOM_UNIT || !state.fit_to_window;
        let rect = CropRect {
            x: axis_crop_offset(state.translate_norm.x, t.x),
            y: axis_crop_offset(state.translate_norm.y, t.y),
            width: axis_crop_len(ext_x, t.x, win_size.x, shift, limit),
            height: axis_crop_len(ext_y, t.y, win_size.y, shift, limit),
        };
        crop = Some(rect);
        current = rect.kept_size(shrunk);
        if zoom > ZOOM_UNIT {
            let extent = Size { x: rect.width, y: rect.height };
            let step = ZoomStep {
                crop: Size {
                    x: visible_at_zoom(extent.x, zoom),
                    y: visible_at_zoom(extent.y, zoom),
                },
                target: if state.upscale_to_window {
                    dimensions_for_window(win_size, &extent)
                } else {
                    extent
                },
            };
            zoom_step_opt = Some(step);
            current = step.target;
        }
    }
    let mut upscale: Option<UpscaleStep> = None;
    if state.upscale_to_window && state.upsampling_filter != PreviewFilterType::Gpu && (current.x
        < win_size.x || current.y < win_size.y) {
        let target = dimensions_for_window(win_size, &current);
        if target != current {
            upscale = Some(UpscaleStep { target, filter: state.upsampling_filter.resize_filter() });
        }
    }
    TransformPlan { unzoom, crop, zoom: zoom_step_opt, upscale }
}

/// What carrying out `plan` on `orig` gives.
///
/// It succeeds exactly when memory can hold every image that a step
/// resamples to, and fails with `TooLarge` when it cannot. The result is an
/// image that the steps of the plan give of `orig`, of the plan's output
/// size. A plan that does not resample gives what its crop keeps of `orig`.
pub open spec fn carried_out(
    orig: Raster,
    plan: TransformPlan,
    r: Result<Image, TransformError>,
) -> bool {
    &&& r is Ok <==> plan.fits(orig.layout)
    &&& r matches Err(e) ==> e == TransformError::TooLarge
    &&& r matches Ok(img) ==> {
        &&& plan.gives(orig, img@)
        &&& img@.size() == plan.output_size(orig.size())
        &&& img@.layout == orig.layout
        &&& img@.wf()
        &&& !plan.resamples() ==> img@ == plan.cropped(orig)
    }
}

/// Carries out the steps of `plan` on `orig`, after testing that memory can
/// hold what the steps resample to.
pub fn apply_plan(orig: &Image, plan: &TransformPlan) -> (r: Result<Image, TransformError>)
    ensures
        carried_out(orig@, *plan, r),
{
    if !plan.fits_memory(orig.layout()) {
        return Err(TransformError::TooLarge);
    }
    let shrunk = plan.shrink(orig)?;
    let part = plan.crop_steps(&shrunk);
    let zoomed = plan.magnify(part)?;
    let ghost magnified = zoomed@;
    let out = plan.upscale_to_window(zoomed)?;
    assert(plan.steps(orig@, shrunk@, magnified, out@));
    Ok(out)
}

/// Whether the displayed image differs from the decoded frame under
/// `state`, for a frame of `image_size` in a window of `win_size`: whether
/// some step of the plan resamples the frame, or the crop keeps less than
/// the whole frame.
pub open spec fn needs_processing(state: PreviewState, image_size: Size, win_size: Size) -> bool {
    let plan = plan_for(image_size, state, win_size);
    plan.resamples() || (plan.crop is Some && plan.crop->0.kept(image_size) != image_size)
}

/// What the displayed image of the decoded frame `image` is under `state`
/// in a window of `win_size`: `None` where the frame is displayed as it
/// is, else what `process_image` gives.
pub open spec fn processed(
    image: Raster,
    state: PreviewState,
    win_size: Size,
    r: Result<Option<Image>, TransformError>,
) -> bool {
    if !needs_processing(state, image.size(), win_size) {
        r == Ok::<Option<Image>, TransformError>(None)
    } else if image.width == 0 || image.height == 0 {
        r == Err::<Option<Image>, TransformError>(TransformError::ZeroArea)
    } else {
        match r {
            Ok(Some(img)) => carried_out(
                image,
                plan_for(image.size(), state, win_size),
                Ok(img),
            ),
            Ok(None) => false,
            Err(e) => carried_out(image, plan_for(image.size(), state, win_size), Err(e)),
        }
    }
}

impl<F, P> VSPreviewer<F, P> {
    /// The image that is displayed for the decoded frame `orig` under
    /// `state` in a window of `win_size`.
    ///
    /// An image without pixels is refused with `ZeroArea`. Else the steps
    /// of `plan_for` are carried out: the call fails only where the image
    /// is scaled up to a window so large that memory cannot hold the
    /// result, and never where the image is not scaled up to the window.
    pub fn process_image(orig: &Image, state: &PreviewState, win_size: &Size) -> (r: Result<
        Image,
        TransformError,
    >)
        ensures
            r == Err::<Image, TransformError>(TransformError::ZeroArea) <==> (orig@.width == 0
                || orig@.height == 0),
            orig@.width != 0 && orig@.height != 0 ==> carried_out(
                orig@,
                plan_for(orig@.size(), *state, *win_size),
                r,
            ),
            orig@.width != 0 && orig@.height != 0 && !state.upscale_to_window ==> r is Ok,
    {
        let size = orig.dimensions();
        if size.x == 0 || size.y == 0 {
            return Err(TransformError::ZeroArea);
        }
        proof {
            if !state.upscale_to_window {
                lemma_fits_without_upscale(orig@, *state, *win_size);
            }
        }
        let plan = transform_plan(size, state, win_size);
        apply_plan(orig, &plan)
    }

    /// Whether the displayed image differs from the decoded frame under
    /// `state`, so that the frame has to be processed.
    pub fn state_needs_processing(state: &PreviewState, image_size: &Size, win_size: &Size) -> (r:
        bool)
        ensures
            r == needs_processing(*state, *image_size, *win_size),
    {
        let plan = transform_plan(*image_size, state, win_size);
        let crops = match plan.crop {
            Some(c) => c.kept_size(*image_size) != *image_size,
            None => false,
        };
        plan.unzoom.is_some() || plan.zoom.is_some() || plan.upscale.is_some() || crops
    }

    /// The processed image that a task keeps beside the decoded frame
    /// `image`: none where the frame is displayed as it is.
    pub fn processed_image(image: &Image, state: &PreviewState, win_size: &Size) -> (r: Result<
        Option<Image>,
        TransformError,
    >)
        ensures
            processed(image@, *state, *win_size, r),
    {
        let size = image.dimensions();
        if Self::state_needs_processing(state, &size, win_size) {
            match Self::process_image(image, state, win_size) {
                Ok(img) => Ok(Some(img)),
                Err(e) => Err(e),
            }
        } else {
            Ok(None)
        }
    }
}

/// The size at which the texture of an image of `tex_size` is painted in a
/// window of `win_size`.
///
/// A texture that is larger than the window in some axis is shrunk to the
/// window where the display is asked to fit it. A texture that is smaller
/// than the window in some axis is scaled up to the window where that is
/// asked for and left to the texture sampler. Both scalings keep the
/// proportions. Every other texture is painted at its own size.
pub open spec fn painted_size(state: PreviewState, tex_size: Size, win_size: Size) -> Size {
    if (tex_size.x > win_size.x || tex_size.y > win_size.y) && state.fit_to_window {
        fit_to_window(win_size, tex_size)
    } else if (tex_size.x < win_size.x || tex_size.y < win_size.y) && state.upscale_to_window
        && state.upsampling_filter == PreviewFilterType::Gpu {
        fit_to_window(win_size, tex_size)
    } else {
        tex_size
    }
}

/// The size at which the texture of an image of `tex_size` is painted.
pub fn texture_size(state: &PreviewState, tex_size: &Size, win_size: &Size) -> (r: Size)
    ensures
        r == painted_size(*state, *tex_size, *win_size),
{
    let larger = tex_size.x > win_size.x || tex_size.y > win_size.y;
    let smaller = tex_size.x < win_size.x || tex_size.y < win_size.y;
    if larger && state.fit_to_window {
        dimensions_for_window(win_size, tex_size)
    } else if smaller && state.upscale_to_window && state.upsampling_filter
        == PreviewFilterType::Gpu {
        dimensions_for_window(win_size, tex_size)
    } else {
        *tex_size
    }
}

/// Whether an image of `image_width` pixels, shrunk by a zoom below 1:1, is
/// wider than a window of `win_width` pixels, so that it is painted from
/// the left edge of the window and not centred.
pub fn clips_horizontally(image_width: u32, zoom_factor: u32, win_width: u32) -> (r: bool)
    ensures
        r == (image_width * min_int(zoom_factor as int, ZOOM_UNIT as int) > win_width * 1000),
{
    let zoom: u64 = if zoom_factor < ZOOM_UNIT {
        zoom_factor as u64
    } else {
        1000
    };
    assert(image_width as u64 * zoom <= 0xffff_ffff * 1000) by (nonlinear_arith)
        requires
            image_width <= 0xffff_ffff,
            zoom <= 1000,
    ;
    image_width as u64 * zoom > win_width as u64 * 1000
}

} // verus!
