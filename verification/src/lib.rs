//! Watches a directory for SVG documents and converts each to a PNG raster,
//! either once over the existing files or continuously as changes arrive.
//!
//! The decisions are verified here: which files are eligible, where their
//! rasters go, what a batch pass plans, what one turn of the watch loop
//! does, and how the command line is dispatched. The rendering itself and
//! all filesystem work stay behind narrow, named interfaces.

pub mod batch;
pub mod cli;
pub mod convert;
pub mod paths;
pub mod watch;
