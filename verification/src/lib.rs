//! Page thumbnails: the rules of a service that captures a web page, resizes
//! and re-encodes the capture, and keeps the result under a key derived from
//! the request.
//!
//! The library decides; its caller performs. Everything that has to wait on
//! the browser, the store or the clock is described as an action handed to
//! the caller, whose outcome comes back as an event.

pub mod discovery;
pub mod entry;
pub mod error;
pub mod format;
pub mod health;
pub mod job;
pub mod pipeline;
pub mod render;
pub mod request;
pub mod response;
pub mod text;
pub mod transcode;

pub use crate::entry::CachedData;
pub use crate::error::AppError;
pub use crate::format::ImageFormat;
pub use crate::render::ThumbnailResult;
pub use crate::request::ThumbnailRequest;
pub use crate::response::{HealthResponse, ThumbnailResponse};
