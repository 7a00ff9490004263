//! A multilingual sentence-boundary detector: raw text is normalized by an
//! ordered cascade of rewrites, split by a character-scanning state machine
//! on per-language terminal punctuation, and, for scripts with letter case, a
//! merge pass reattaches candidates that begin with a lower-case letter.

pub mod chars;
pub mod config;
pub mod rules;
pub mod cascade;
pub mod scan;
pub mod merge;
pub mod engine;
pub mod processor;
pub mod laws;
