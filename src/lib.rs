//! Loudness and spectral metric extraction for audio files.
//!
//! The library holds the decisions of the pipeline: which paths are analysed,
//! how each probe of the analysis tool is invoked, how its text output is
//! turned into readings, how the readings of one file become a record, and how
//! the records of a batch are gathered.
pub mod analyzer;
pub mod config;
pub mod error;
pub mod parser;
pub mod types;
pub mod utils;

pub use analyzer::AudioAnalyzer;
pub use config::{AnalyzerConfig, QualityThresholds};
pub use error::{AnalyzerError, Result};
pub use types::AudioMetrics;

use vstd::prelude::*;

verus! {

/// Version of the library.
pub const VERSION: &'static str = "4.0.0";

/// The audio file extensions analysed by default.
pub const SUPPORTED_EXTENSIONS: [&'static str; 10] = [
    "wav", "mp3", "m4a", "flac", "aac", "ogg", "opus", "wma", "aiff", "alac",
];

} // verus!
