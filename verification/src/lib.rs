//! A small file-serving library: it resolves request paths, renders HTML
//! directory listings with a fixed set of hidden filename suffixes, and turns
//! file-read outcomes into HTTP responses.

pub mod filter;
pub mod listing;
pub mod paths;
pub mod response;
pub mod strutil;
