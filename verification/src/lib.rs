//! A verified core for a document-compilation service.
//!
//! The library turns submitted LaTeX source text into the exact decisions a
//! compilation service must make: which engine to select, where to persist
//! the source, which arguments to hand the engine, how to classify the
//! engine's outcome, and how to shape the wire-level reply. Everything that
//! touches the host (spawning the engine, reading and writing files, serving
//! HTTP) lives outside the library and only carries plain values in and out.

pub mod api;
pub mod compile;
pub mod latex;
pub mod naming;
