//! Verified core of a bulk face-analysis tool.
//!
//! The tool walks a directory tree, decodes each regular file as an image,
//! and runs a three-stage face pipeline over it (detect, landmark, encode).
//! The native models and all file-system access live outside this crate;
//! what is verified here is the logic between them: argument handling,
//! image decoding from bytes, the per-image aggregation of detector,
//! landmark and encoder results, and the traversal bookkeeping that visits
//! every reachable regular file exactly once and survives per-file failures.

pub mod config;
pub mod decode;
pub mod driver;
pub mod pipeline;
pub mod walker;

pub use config::Config;
