//! Annotates the markup elements of a parsed file with the file, line and
//! column they were written at, so that developer tooling can map rendered
//! output back to its source.

pub mod annotation;
pub mod ast;
pub mod laws;
pub mod model;
pub mod plugin;
pub mod source_map;
pub mod text;
pub mod transform;
pub mod utils;
