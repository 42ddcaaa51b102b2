//! A verified core for a paginated e-book downloader.
//!
//! The library holds the logic of the pipeline: parsing the book-id
//! argument, building page URLs and file paths, extracting a page's text
//! from its HTML body, coordinating a bounded number of in-flight fetches,
//! and merging per-page contents in strict page order. Network and file
//! I/O stay outside, in the application that drives the library.

pub mod numeral;
pub mod paths;
pub mod cli;
pub mod coordinator;
pub mod merge;
pub mod html;
pub mod descriptor;
pub mod pipeline;
