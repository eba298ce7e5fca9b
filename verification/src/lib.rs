//! Core of a project-context tracker: it turns conversation logs of a coding
//! assistant into typed facts about a tracked project, scores each fact's
//! importance, and decides when a fact has gone stale.
//!
//! The modules mirror the pipeline: a log parser, a rule-based fact
//! classifier, an importance scorer, a staleness detector, and the pure
//! decision steps of the ingestion pipeline. File watching, persistence and
//! any user interface live outside this crate; they hand plain values in and
//! take plain values back.

pub mod cli;
pub mod clock;
pub mod extractor;
pub mod fact;
pub mod markdown;
pub mod notifications;
pub mod parser;
pub mod pipeline;
pub mod project;
pub mod scorer;
pub mod section;
pub mod session;
pub mod text;
