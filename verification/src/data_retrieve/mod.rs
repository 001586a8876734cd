//! The data-acquisition pipeline and its parts.

pub mod bytes;
pub mod download;
pub mod error;
pub mod format;
pub mod gzip;
pub mod host;
pub mod names;
pub mod pipeline;
pub mod retry;
pub mod tar;
pub mod unarchive;
pub mod writer;
