//! Conversion between a paged document and a sequence of raster images.
//!
//! The crate holds the decisions of both directions: which direction a
//! command line selects, how output files are named, how large a page is
//! rendered, and the order of steps of each pipeline with its fail-fast
//! behaviour. The embedding program performs the file and engine work that
//! each step names and reports back what happened.

pub mod binding;
pub mod engine;
pub mod error;
pub mod mode;
pub mod naming;
pub mod raster;
pub mod sizing;
pub mod synth;
