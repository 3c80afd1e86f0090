//! Preparation of prompt images for the Responses API strict mode.
//!
//! - `data_url`: recognizing `data:` URLs.
//! - `models`: the conversation items that carry images.
//! - `image`: prompt image modes, size limits and `data:` URL encoding.
//! - `strict`: the strict-mode preparation passes and their specifications.
//! - `laws`: properties of the passes across calls.

pub mod data_url;
pub mod image;
pub mod laws;
pub mod models;
pub mod strict;
