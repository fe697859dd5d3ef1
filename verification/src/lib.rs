//! Batch translation pipeline: fans one `(text, key)` pair out to a set of
//! target languages, paces the requests, collects per-language outcomes in
//! input order, and plans the `key=value` lines appended to per-language
//! resource files.
//!
//! The network call itself, configuration-file loading and argument parsing
//! live outside this crate; the crate holds the logic that decides what to
//! request, in what order and at what pace, and what to write where.

pub mod config;
pub mod dispatch;
pub mod lang;
pub mod orchestrate;
pub mod writer;
