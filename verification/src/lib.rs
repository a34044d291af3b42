//! An ephemeral single-file sharing library: it renders a square module
//! matrix (a scannable 2-D barcode) into a monochrome raster, builds the
//! download link for the served file, and decides the response to each
//! incoming request on the single download route.

pub mod config;
pub mod link;
pub mod matrix;
pub mod raster;
pub mod resolve;
pub mod server;
