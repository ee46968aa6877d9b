//! The view parameters: what is shown, and how it is zoomed and panned.

use vstd::prelude::*;
use crate::geometry::{Translate, TranslateNorm, ZOOM_UNIT};
use crate::preview_filter_type::{PreviewFilterType, PreviewTextureFilterType};
use crate::vstransform::{VSDitherAlgo, VSResizer, VSTransformOptions};

verus! {

/// The least multiplier of one zoom step, in thousandths.
pub const MIN_ZOOM_MULTIPLIER: u32 = 1000;

/// The greatest multiplier of one zoom step, in thousandths.
pub const MAX_ZOOM_MULTIPLIER: u32 = 2000;

/// The view parameters. The interactive loop owns and changes them; a
/// background task works on a copy taken when it was dispatched.
#[derive(Debug, Clone, Copy, PartialEq, Eq, Structural)]
pub struct PreviewState {
    pub show_gui: bool,
    /// The output that is shown.
    pub cur_output: i32,
    /// The frame that is asked for.
    pub cur_frame_no: u32,
    /// The zoom factor in thousandths.
    pub zoom_factor: u32,
    /// The pan was changed since the last dispatch.
    pub translate_changed: bool,
    /// The pan in pixels.
    pub translate: Translate,
    /// The pan as a fraction of the largest valid pan.
    pub translate_norm: TranslateNorm,
    pub frame_transform_opts: VSTransformOptions,
    /// The filter of the texture sampler.
    pub texture_filter: PreviewTextureFilterType,
    /// Scale an image that is smaller than the window up to it.
    pub upscale_to_window: bool,
    /// The filter that scales up to the window.
    pub upsampling_filter: PreviewFilterType,
    /// Let the display shrink an image that is larger than the window.
    pub fit_to_window: bool,
    /// The factor of one zoom step, in thousandths.
    pub zoom_multiplier: u32,
    /// The factor applied to a scroll distance, in thousandths.
    pub scroll_multiplier: i32,
    /// The margin round the canvas, in thousandths of a point.
    pub canvas_margin: u32,
    pub icc_enabled: bool,
}

/// What has to follow a change made outside the frame pipeline.
#[derive(Debug, Clone, Copy, PartialEq, Eq, Structural)]
pub enum ReloadType {
    Nothing,
    Reload,
    Reprocess,
}

impl PreviewState {
    /// The state of a first start: 1:1, no pan, output 0, frame 0, fitted
    /// to the window.
    pub open spec fn initial() -> PreviewState {
        PreviewState {
            show_gui: false,
            cur_output: 0,
            cur_frame_no: 0,
            zoom_factor: ZOOM_UNIT,
            translate_changed: false,
            translate: Translate { x: 0, y: 0 },
            translate_norm: TranslateNorm { x: 0, y: 0 },
            frame_transform_opts: VSTransformOptions {
                resizer: VSResizer::Spline16,
                enable_dithering: false,
                dither_algo: VSDitherAlgo::Disabled,
            },
            texture_filter: PreviewTextureFilterType::Linear,
            upscale_to_window: false,
            upsampling_filter: PreviewFilterType::Gpu,
            fit_to_window: true,
            zoom_multiplier: 1000,
            scroll_multiplier: 1000,
            canvas_margin: 0,
            icc_enabled: false,
        }
    }

    /// The state with the options that a stored state may hold wrongly put
    /// right: a scroll multiplier that is not positive becomes 1.0, and the
    /// zoom multiplier is brought into `[1.0, 2.0]`.
    pub open spec fn with_valid_options(self) -> PreviewState {
        PreviewState {
            scroll_multiplier: if self.scroll_multiplier <= 0 {
                1000
            } else {
                self.scroll_multiplier
            },
            zoom_multiplier: if self.zoom_multiplier < MIN_ZOOM_MULTIPLIER {
                MIN_ZOOM_MULTIPLIER
            } else if self.zoom_multiplier > MAX_ZOOM_MULTIPLIER {
                MAX_ZOOM_MULTIPLIER
            } else {
                self.zoom_multiplier
            },
            ..self
        }
    }

    /// Puts right the options that a stored state may hold wrongly.
    pub fn fix_invalid_options(&mut self)
        ensures
            *final(self) == old(self).with_valid_options(),
    {
        if self.scroll_multiplier <= 0 {
            self.scroll_multiplier = 1000;
        }
        if self.zoom_multiplier < MIN_ZOOM_MULTIPLIER {
            self.zoom_multiplier = MIN_ZOOM_MULTIPLIER;
        } else if self.zoom_multiplier > MAX_ZOOM_MULTIPLIER {
            self.zoom_multiplier = MAX_ZOOM_MULTIPLIER;
        }
    }
}

impl Default for PreviewState {
    fn default() -> (r: Self)
        ensures
            r == PreviewState::initial(),
    {
        PreviewState {
            show_gui: false,
            cur_output: 0,
            cur_frame_no: 0,
            zoom_factor: ZOOM_UNIT,
            translate_changed: false,
            translate: Translate { x: 0, y: 0 },
            translate_norm: TranslateNorm { x: 0, y: 0 },
            frame_transform_opts: VSTransformOptions {
                resizer: VSResizer::Spline16,
                enable_dithering: false,
                dither_algo: VSDitherAlgo::Disabled,
            },
            texture_filter: PreviewTextureFilterType::Linear,
            upscale_to_window: false,
            upsampling_filter: PreviewFilterType::Gpu,
            fit_to_window: true,
            zoom_multiplier: 1000,
            scroll_multiplier: 1000,
            canvas_margin: 0,
            icc_enabled: false,
        }
    }
}

} // verus!
