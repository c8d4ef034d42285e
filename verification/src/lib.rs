//! Post-processing of the results that the CBMC model checker streams out:
//! framing of the output into records, the ordered clean-up pipeline over a
//! batch of checks, and the rendering of the final report and verdict.

pub mod category;
pub mod classify;
pub mod descriptions;
pub mod errors;
pub mod format;
pub mod laws;
pub mod markers;
pub mod parser;
pub mod paths;
pub mod pattern;
pub mod postprocess;
pub mod text;
pub mod types;
