//! Frame scheduling and view geometry for a video script previewer.
//!
//! The crate decides when a frame has to be fetched from the frame source and
//! when the frame at hand can be cropped and scaled again, keeps the table of
//! outputs, and computes the crop and resize steps that turn a decoded frame
//! into the image that is displayed.
//!
//! All quantities are integers. A zoom factor is a number of thousandths
//! (`ZOOM_UNIT` is 1:1), a normalized pan is a fixed-point number with 32
//! fractional bits (`NORM_UNIT` is the whole extent), sizes and pixel pans are
//! whole pixels.
//!
//! - `geometry`: sizes, pans, the largest valid pan, fitting a size to a window
//! - `state`: the view parameters
//! - `raster`: decoded images, cropping and resampling
//! - `transform`: from a frame and the view parameters to the displayed image
//! - `outputs`: the table of outputs
//! - `previewer`: the scheduler and the operations on the previewer
//! - `inputs`: what the commands of the user do
//! - `laws`: what holds of all of it
//! - `errors`: errors and the list of messages
//! - `vsnode`, `vstransform`, `zimg_map`, `preview_filter_type`: the values
//!   exchanged with the frame source and the display

pub mod errors;
pub mod geometry;
pub mod inputs;
pub mod laws;
pub mod outputs;
pub mod preview_filter_type;
pub mod previewer;
pub mod raster;
pub mod state;
pub mod transform;
pub mod vsnode;
pub mod vstransform;
pub mod zimg_map;
