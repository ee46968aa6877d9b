//! The filters that scale the displayed image.

use vstd::prelude::*;

verus! {

/// The filter that scales an image up to the window. `Gpu` leaves the
/// scaling to the texture sampler.
#[derive(Debug, Clone, Copy, PartialEq, Eq, Structural)]
pub enum PreviewFilterType {
    Gpu,
    Point,
    Bilinear,
    Hamming,
    CatmullRom,
    Mitchell,
    Lanczos3,
}

/// The filter of the texture sampler.
#[derive(Debug, Clone, Copy, PartialEq, Eq, Structural)]
pub enum PreviewTextureFilterType {
    Linear,
    Nearest,
}

impl PreviewFilterType {
    /// The name shown for this filter.
    pub open spec fn name_of(self) -> Seq<char> {
        match self {
            PreviewFilterType::Gpu => "GPU"@,
            PreviewFilterType::Point => "Point"@,
            PreviewFilterType::Bilinear => "Bilinear"@,
            PreviewFilterType::Hamming => "Hamming"@,
            PreviewFilterType::CatmullRom => "CatmullRom"@,
            PreviewFilterType::Mitchell => "Mitchell"@,
            PreviewFilterType::Lanczos3 => "Lanczos3"@,
        }
    }

    /// The name shown for this filter.
    pub fn name(&self) -> (r: &'static str)
        ensures
            r@ == self.name_of(),
    {
        match self {
            PreviewFilterType::Gpu => "GPU",
            PreviewFilterType::Point => "Point",
            PreviewFilterType::Bilinear => "Bilinear",
            PreviewFilterType::Hamming => "Hamming",
            PreviewFilterType::CatmullRom => "CatmullRom",
            PreviewFilterType::Mitchell => "Mitchell",
            PreviewFilterType::Lanczos3 => "Lanczos3",
        }
    }
}

impl PreviewTextureFilterType {
    /// The name shown for this filter.
    pub open spec fn name_of(self) -> Seq<char> {
        match self {
            PreviewTextureFilterType::Linear => "Linear"@,
            PreviewTextureFilterType::Nearest => "Nearest"@,
        }
    }

    /// The name shown for this filter.
    pub fn name(&self) -> (r: &'static str)
        ensures
            r@ == self.name_of(),
    {
        match self {
            PreviewTextureFilterType::Linear => "Linear",
            PreviewTextureFilterType::Nearest => "Nearest",
        }
    }
}

impl Default for PreviewFilterType {
    fn default() -> (r: Self)
        ensures
            r == PreviewFilterType::Gpu,
    {
        PreviewFilterType::Gpu
    }
}

impl Default for PreviewTextureFilterType {
    fn default() -> (r: Self)
        ensures
            r == PreviewTextureFilterType::Linear,
    {
        PreviewTextureFilterType::Linear
    }
}

} // verus!
