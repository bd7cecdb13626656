//! An on-demand image transformation pipeline: a fetched raster is resized by
//! one of four policies, re-encoded into a requested format, and optionally
//! wrapped as a base64 data URI. The size-resolution arithmetic, the resize
//! policies, format and quality selection, and the data-URI text encoding are
//! verified; rasters themselves are carried opaquely through the `image` crate.

#![allow(unused_imports)]

mod datauri;
mod encode;
mod fetch;
mod format;
mod img;
mod pipeline;
mod resize;
mod sampling;
mod size;
mod types;

pub use datauri::to_base64;
pub use encode::to_buffer;
pub use fetch::decode_image;
pub use fetch::status_ok;
pub use format::select_format;
pub use pipeline::render;
pub use pipeline::render_within_limits;
pub use pipeline::response_content_type;
pub use pipeline::Body;
pub use resize::resize_image;
pub use sampling::filter_for_name;
pub use sampling::get_samling_filter;
pub use size::get_size;
pub use types::ImgError;
pub use types::ImgResizeParameters;
pub use types::OutputFormat;
pub use types::ResizeMode;
pub use types::SamplingFilter;
