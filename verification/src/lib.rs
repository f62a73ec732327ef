//! An image ingestion and delivery library.
//!
//! Images dropped into a watched directory are normalized to a canonical
//! storage format and served back on demand in request-specific formats and
//! sizes, optionally resolving filename conventions (prefix/suffix templates)
//! to fixed output renditions.

pub mod config;
pub mod encoding;
pub mod request;
pub mod storage;
pub mod templates;
pub mod transcoder;
pub mod watcher;
