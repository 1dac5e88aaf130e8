//! Decision logic of a small image uploader: object keys partitioned by
//! calendar month, the upload client around a single PUT, and the pipeline
//! that turns watched files into uploads and hands the resulting address to
//! its sinks.
//!
//! Everything here computes on plain values. Reading input, talking to the
//! storage service, the clipboard, notifications and the file system are left
//! to the program that drives the library.

pub mod calendar;
pub mod config;
pub mod content;
pub mod error;
pub mod key;
pub mod output;
pub mod pipeline;
pub mod text;
pub mod token;
pub mod traces;
pub mod upload;
