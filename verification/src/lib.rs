//! Validation and configuration-assembly core of a raster-to-SVG
//! conversion tool.
//!
//! The library owns every decision the tool makes before and after the
//! actual tracing work: which file extensions are legal, which numeric
//! parameter values are in range, how the output path is derived, how the
//! user-facing modes map onto the tracing engine's modes, and in which
//! order the conversion pipeline advances.  The surrounding binary only
//! parses arguments, touches the filesystem, and calls the engine.

pub mod cli;
pub mod engine;
pub mod error;
pub mod extension;
pub mod orchestrator;
pub mod params;
