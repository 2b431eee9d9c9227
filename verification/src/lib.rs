//! A single-shot document-compilation worker library.
//!
//! One invocation decodes a compilation request, classifies the outcome of a
//! bounded run of the external build tool, and encodes a single structured
//! response. The request decoding, artifact-path derivation, fixed tool
//! invocation, outcome classification and response encoding are verified; the surrounding
//! process-level input, output and subprocess handling live outside the
//! library.

pub mod command;
pub mod decode;
pub mod encode;
pub mod outcome;
pub mod paths;
pub mod response;
