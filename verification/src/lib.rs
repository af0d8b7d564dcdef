//! Generation of module declaration records from a directory listing and a
//! small configuration grammar.
//!
//! The crate turns a flat token sequence (the configuration) and a list of
//! classified directory entries into an ordered list of abstract declaration
//! records: a parser for the statement grammar, a resolution engine that
//! assigns one effective visibility modifier to every entry, a conditional
//! generator that gates every entry behind a build-configuration flag, and an
//! emitter that renders resolved policies as plain records.
//!
//! Locations are plain values throughout: a token's location is its index in
//! the input sequence, and every statement and error carries the index of the
//! token it points at.

pub mod emit;
pub mod entries;
pub mod error;
pub mod imp;
pub mod laws;
pub mod parse;
pub mod resolve;
pub mod token;
