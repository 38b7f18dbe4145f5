//! Converts an SVG document into a PNG raster image of a caller-chosen
//! resolution.
//!
//! The pipeline is linear: parse the SVG bytes into a document, allocate a
//! pixel buffer of the target size, rasterize the document stretched to fill
//! that buffer exactly, and encode the buffer as an 8-bit RGBA PNG stream.
//! Parsing, rasterization and PNG encoding are done by outside libraries
//! behind small trusted wrappers; everything around them is verified.

pub mod backend;
pub mod convert;
pub mod errors;
pub mod input;
pub mod png_meta;
