//! Core of a fuzz-driven compilation pipeline: raw bytes are adapted into a
//! source set, validated into a structured compiler request, dispatched to an
//! external frontend, gated on error diagnostics, assembled into a project,
//! lowered to build artifacts, and merged back into a structured output.
//! Every stage returns a classified outcome; the driver state machine tracks
//! one fuzz iteration at a time.

pub mod diagnostics;
pub mod config;
pub mod codegen;
pub mod driver;
pub mod encoding;
pub mod frontend;
pub mod outcome;
pub mod pipeline;
pub mod output;
pub mod project;
pub mod source;
pub mod version;
