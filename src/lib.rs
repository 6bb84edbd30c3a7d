//! Extraction of the source payload that a packaged executable carries
//! before its fixed 24-byte trailer.

pub mod bytes;
pub mod error;
pub mod trailer;
pub mod payload;
pub mod laws;
pub mod output;
