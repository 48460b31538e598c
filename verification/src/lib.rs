//! Scoring engine and run bookkeeping for a signature-based file scanner.
//!
//! Files are judged against two kinds of rules: fingerprints (the digest of a
//! byte window of fixed length) and textual patterns (regular expressions).
//! The library works on bytes that the caller has already read; it never
//! touches the file system itself.

pub mod entry;
pub mod task;
pub mod rules;
pub mod fingerprint;
pub mod pattern;
pub mod engine;
pub mod utils;
