//! Batch-rename or batch-delete files by editing a plain-text list of paths.
//!
//! The library turns two parallel line sequences (the original paths and the
//! lines as they came back from the operator's editor) into an ordered
//! sequence of changes, renders a human-readable summary of the pending
//! operations, decides whether an interactive response approves them, and
//! sequences their application so that the first failure halts the run.
//! Reading the input, running the editor and touching the file system are
//! left to the surrounding program.
pub mod apply;
pub mod builder;
pub mod gate;
pub mod lines;
pub mod model;
pub mod report;
