//! Supervised subprocess bridge.
//!
//! The library models the logic of a bridge that supervises a long-running
//! worker process: assembling its output byte stream into lines, decoding the
//! confirm-request control messages embedded in that stream, tracking the
//! session lifecycle, rendering one-shot command results, and filtering
//! self-originated entries out of discovery results.

pub mod bytes;
pub mod command;
pub mod discovery;
pub mod errors;
pub mod json;
pub mod launcher;
pub mod lines;
pub mod protocol;
pub mod supervisor;
