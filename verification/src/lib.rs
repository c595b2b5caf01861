//! Batch media-pipeline orchestration: directory-scan planning, filename
//! timestamp parsing, output-path computation, concatenation manifests, and
//! the argument lists and outcome decisions for an external media tool.
pub mod manifest;
pub mod paths;
pub mod scan;
pub mod timestamp;
pub mod tool;
