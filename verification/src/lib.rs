//! Decision logic of a tool that builds one workspace package to WebAssembly
//! and stages the produced files into a distribution directory.
//!
//! The crate holds no I/O. The caller performs the outside work (compiling,
//! optimizing, touching the file system) and reports each result back; every
//! choice in between is made here and carries a proved contract.

pub mod text;
pub mod workspace;
pub mod resolve;
pub mod request;
pub mod stage;
pub mod report;
pub mod pipeline;
pub mod laws;
