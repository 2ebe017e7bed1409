//! A document-pipeline filter: it takes a document tree in the JSON wire
//! format on the way through a pipeline, rewrites every image reference that
//! points at a diagram file so that it points at a rendered image instead,
//! and hands the tree back unchanged in every other respect. The rendering
//! itself is delegated to an external renderer behind a process-runner
//! capability; everything around that call is specified and verified.

pub mod errors;
pub mod paths;
pub mod runner;
pub mod cache;
pub mod drawio;
pub mod pandoc;
pub mod config;
pub mod filter;
pub mod laws;
