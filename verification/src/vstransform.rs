//! The options under which the frame source converts a frame for display.

use vstd::prelude::*;

verus! {

/// The resizer that converts a frame to the displayed pixel format.
#[derive(Clone, Copy, Debug, PartialEq, Eq, Structural)]
pub enum VSResizer {
    Bilinear,
    Bicubic,
    Point,
    Lanczos,
    Spline16,
    Spline36,
    Spline64,
}

/// The dithering applied when the bit depth is reduced.
#[derive(Clone, Copy, Debug, PartialEq, Eq, Structural)]
pub enum VSDitherAlgo {
    Disabled,
    Ordered,
    Random,
    ErrorDiffusion,
}

/// How a frame is converted before it is handed over.
#[derive(Clone, Copy, Debug, PartialEq, Eq, Structural)]
pub struct VSTransformOptions {
    pub resizer: VSResizer,
    pub enable_dithering: bool,
    pub dither_algo: VSDitherAlgo,
}

/// The colour family of the clip behind an output.
#[derive(Clone, Copy, Debug, PartialEq, Eq, Structural)]
pub enum SourceFamily {
    Gray,
    Rgb,
    Yuv,
}

/// The pixel format that a frame is displayed in.
#[derive(Clone, Copy, Debug, PartialEq, Eq, Structural)]
pub enum DisplayFormat {
    Gray8,
    Rgb24,
}

/// What the frame source is asked to do to a clip before a frame of it is
/// taken.
#[derive(Clone, Copy, Debug, PartialEq, Eq, Structural)]
pub struct FrameConversion {
    /// The format to convert to; `None` where the clip is displayed as it is
    /// and the frame source is not asked for anything.
    pub format: Option<DisplayFormat>,
    /// The clip is read with the BT.709 matrix.
    pub bt709_matrix_in: bool,
    /// The dithering of the conversion, where one is asked for.
    pub dither_type: Option<VSDitherAlgo>,
}

impl VSTransformOptions {
    /// What the frame source is asked to do to a clip of the colour family
    /// `family` with `bits_per_sample` bits per sample, which is 8-bit gray
    /// or 24-bit RGB already as `is_gray8` and `is_rgb24` say.
    ///
    /// A gray clip is converted to 8-bit gray and an RGB clip to 24-bit RGB
    /// unless it is that already; a YUV clip is always converted to 24-bit
    /// RGB and read with the BT.709 matrix. The conversion dithers where
    /// dithering is enabled, the clip is not 24-bit RGB and has 8 bits per
    /// sample or more.
    pub open spec fn conversion_of(
        self,
        family: SourceFamily,
        is_gray8: bool,
        is_rgb24: bool,
        bits_per_sample: u8,
    ) -> FrameConversion {
        FrameConversion {
            format: match family {
                SourceFamily::Gray => if is_gray8 {
                    None
                } else {
                    Some(DisplayFormat::Gray8)
                },
                SourceFamily::Yuv => Some(DisplayFormat::Rgb24),
                SourceFamily::Rgb => if is_rgb24 {
                    None
                } else {
                    Some(DisplayFormat::Rgb24)
                },
            },
            bt709_matrix_in: family == SourceFamily::Yuv,
            dither_type: if self.enable_dithering && !is_rgb24 && bits_per_sample >= 8 {
                Some(self.dither_algo)
            } else {
                None
            },
        }
    }

    /// What the frame source is asked to do to a clip before a frame of it
    /// is taken.
    pub fn conversion(
        &self,
        family: SourceFamily,
        is_gray8: bool,
        is_rgb24: bool,
        bits_per_sample: u8,
    ) -> (r: FrameConversion)
        ensures
            r == self.conversion_of(family, is_gray8, is_rgb24, bits_per_sample),
    {
        let format = match family {
            SourceFamily::Gray => if is_gray8 {
                None
            } else {
                Some(DisplayFormat::Gray8)
            },
            SourceFamily::Yuv => Some(DisplayFormat::Rgb24),
            SourceFamily::Rgb => if is_rgb24 {
                None
            } else {
                Some(DisplayFormat::Rgb24)
            },
        };
        let bt709_matrix_in = match family {
            SourceFamily::Yuv => true,
            _ => false,
        };
        let dither_type = if self.enable_dithering && !is_rgb24 && bits_per_sample >= 8 {
            Some(self.dither_algo)
        } else {
            None
        };
        FrameConversion { format, bt709_matrix_in, dither_type }
    }
}

impl VSResizer {
    /// The name of the resize function of the frame source.
    pub open spec fn str_of(self) -> Seq<char> {
        match self {
            VSResizer::Bilinear => "Bilinear"@,
            VSResizer::Bicubic => "Bicubic"@,
            VSResizer::Point => "Point"@,
            VSResizer::Lanczos => "Lanczos"@,
            VSResizer::Spline16 => "Spline16"@,
            VSResizer::Spline36 => "Spline36"@,
            VSResizer::Spline64 => "Spline64"@,
        }
    }

    /// The name of the resize function of the frame source.
    pub fn as_str(&self) -> (r: &'static str)
        ensures
            r@ == self.str_of(),
    {
        match self {
            VSResizer::Bilinear => "Bilinear",
            VSResizer::Bicubic => "Bicubic",
            VSResizer::Point => "Point",
            VSResizer::Lanczos => "Lanczos",
            VSResizer::Spline16 => "Spline16",
            VSResizer::Spline36 => "Spline36",
            VSResizer::Spline64 => "Spline64",
        }
    }
}

impl VSDitherAlgo {
    /// The value of the frame source's `dither_type` argument.
    pub open spec fn str_of(self) -> Seq<char> {
        match self {
            VSDitherAlgo::Disabled => "none"@,
            VSDitherAlgo::Ordered => "ordered"@,
            VSDitherAlgo::Random => "random"@,
            VSDitherAlgo::ErrorDiffusion => "error_diffusion"@,
        }
    }

    /// The name shown for this algorithm.
    pub open spec fn name_of(self) -> Seq<char> {
        match self {
            VSDitherAlgo::Disabled => "None"@,
            VSDitherAlgo::Ordered => "Ordered"@,
            VSDitherAlgo::Random => "Random"@,
            VSDitherAlgo::ErrorDiffusion => "Error Diffusion"@,
        }
    }

    /// The value of the frame source's `dither_type` argument.
    pub fn as_str(&self) -> (r: &'static str)
        ensures
            r@ == self.str_of(),
    {
        match self {
            VSDitherAlgo::Disabled => "none",
            VSDitherAlgo::Ordered => "ordered",
            VSDitherAlgo::Random => "random",
            VSDitherAlgo::ErrorDiffusion => "error_diffusion",
        }
    }

    /// The name shown for this algorithm.
    pub fn name(&self) -> (r: &'static str)
        ensures
            r@ == self.name_of(),
    {
        match self {
            VSDitherAlgo::Disabled => "None",
            VSDitherAlgo::Ordered => "Ordered",
            VSDitherAlgo::Random => "Random",
            VSDitherAlgo::ErrorDiffusion => "Error Diffusion",
        }
    }
}

impl Default for VSResizer {
    fn default() -> (r: Self)
        ensures
            r == VSResizer::Spline16,
    {
        VSResizer::Spline16
    }
}

impl Default for VSDitherAlgo {
    fn default() -> (r: Self)
        ensures
            r == VSDitherAlgo::Disabled,
    {
        VSDitherAlgo::Disabled
    }
}

impl Default for VSTransformOptions {
    fn default() -> (r: Self)
        ensures
            r == (VSTransformOptions {
                resizer: VSResizer::Spline16,
                enable_dithering: false,
                dither_algo: VSDitherAlgo::Disabled,
            }),
    {
        VSTransformOptions {
            resizer: VSResizer::Spline16,
            enable_dithering: false,
            dither_algo: VSDitherAlgo::Disabled,
        }
    }
}

} // verus!
