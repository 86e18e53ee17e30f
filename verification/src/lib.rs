//! Verified core of a command-line dictionary lookup client.
//!
//! The library holds everything that can be stated and proved: slug
//! normalization for lookup URLs, HTTP status classification, the parser for
//! the autocomplete JSON wire format, text cleanup of extracted definitions,
//! and the functions that assemble the printed report lines. HTML queries and
//! Unicode case mapping are reached through a small set of trusted wrappers.

pub mod html;
pub mod json;
pub mod report;
pub mod slug;
pub mod status;
pub mod text;
