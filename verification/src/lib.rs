//! Theme generator for the Rose Pine palette.
//!
//! A template document may hold placeholder tokens such as `$love:hex/80`.
//! The library scans the document, parses every placeholder into a
//! [`parse::Capture`], and produces one output document per palette
//! [`palette::Variant`], with each placeholder replaced by a formatted
//! color literal or a piece of variant metadata.

pub mod casing;
pub mod config;
pub mod format;
pub mod generate;
pub mod palette;
pub mod parse;
pub mod text;
