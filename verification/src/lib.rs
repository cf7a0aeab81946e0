//! Compile-time rewriting of an entry-point function: the annotated function's
//! body is re-emitted so that, at runtime, it runs on a dedicated worker thread
//! behind a panic-capturing boundary, and every failure (returned error, panic
//! payload, or join failure) is surfaced through a modal dialog instead of a
//! console dump.
//!
//! The library works on its own flat token representation (see [`token`]): the
//! extractor ([`entry`]) parses a token sequence as a function item without
//! descending into expression grammar, and the re-emitter ([`emit`]) rebuilds
//! the wrapped function around the original statements.  [`report`] states the
//! failure-message rule that the emitted scaffolding follows at runtime.

pub mod token;
pub mod grammar;
pub mod entry;
pub mod emit;
pub mod report;
