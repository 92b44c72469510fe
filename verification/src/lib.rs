//! Conversion of plain-text posts with a `Key: value` header block into
//! h-entry records serialized as JSON.
//!
//! The input document is a sequence of header lines terminated by a blank
//! line; everything after the blank line is the post body, carried verbatim.
//! Recognized header keys (`Title`, `Slug`, `Date`, `Tags`) fill a
//! [`post::PostBuilder`]; unrecognized lines are ignored. Finalizing the
//! builder validates that the required fields are present and yields an
//! immutable [`post::Post`], which renders to a single line of JSON.

pub mod json;
pub mod laws;
pub mod parser;
pub mod post;
pub mod text;
