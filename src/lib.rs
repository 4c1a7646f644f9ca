//! Decision logic of a desktop screenshot utility: serialising captures,
//! reading the outcome of the platform capture tools, building clipboard
//! scripts, decoding edited images, and cropping captured images.

mod capture;
mod clipboard;
mod crop;
mod image_data;
mod text;

pub use capture::{
    capture_destination, capture_file_name, capture_outcome, check_and_activate_permission,
    is_screencapture_running, join_path, mentions_permission_denial, primary_monitor, probe_args,
    screencapture_args, CaptureCoordinator, CaptureError, CaptureMode, Platform, ProbeOutcome,
};
pub use clipboard::{
    clipboard_outcome, copy_image_to_clipboard, escape_single_quotes, ClipboardError, PathFacts,
    ToolCommand,
};
pub use crop::{capture_region, CropError, CropRegion, Raster};
pub use image_data::{decode_image_data, ImageDataError};
pub use text::{chars_of, contains_text};
