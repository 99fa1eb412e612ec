//! Sorting of media files into a tree of year and month directories.
//!
//! The library decides and the caller acts. It finds the moment a file was
//! taken (`date`), the place that this gives the file and the way out of a
//! name that is taken (`placement`), and what is to be done with the file in
//! the mode of the run (`relocate`). The caller reads the file system, asks
//! the operator, and moves, copies or deletes.

pub mod config;
pub mod date;
pub mod failure;
pub mod metadata;
pub mod naming;
pub mod operator;
pub mod pattern;
pub mod placement;
pub mod relocate;
pub mod text;
pub mod timestamp;
