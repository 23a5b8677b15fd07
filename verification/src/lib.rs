//! Scan, diff and persistence rules of a prediction-market scanner.
//!
//! The library holds the pure part of the pipeline: the record shapes, the
//! pagination protocol of the remote listing, the change detection against
//! the tracked markets, the in-memory snapshot store, and the encodings that
//! the relational and key-value backends use at rest.

pub mod api;
pub mod clock;
pub mod config;
pub mod database;
pub mod db;
pub mod error;
pub mod json;
pub mod json_db;
pub mod report;
pub mod scanner;
pub mod table;
pub mod text;
pub mod types;
