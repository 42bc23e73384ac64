//! Query-string filters: decoding repeated `filter` keys from a URL query
//! into two parameter shapes (one read directly, one merged from a nested
//! field) and rendering them as a comma-joined response body.

pub mod form;
pub mod params;
pub mod laws;
pub mod handler;
