//! Code-generation logic for two derives on named-field records: a fluent
//! builder companion, and a debug renderer with per-field format patterns.
//!
//! The parsed declaration comes in as a [`record::RecordDescription`] of plain
//! values; the generators return plans that say which declarations to emit.
//! [`companion::Companion`] is an executable model of the emitted builder.

pub mod builder;
pub mod companion;
pub mod debug;
pub mod laws;
pub mod optional;
pub mod record;
