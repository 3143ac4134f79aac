//! Typed, transactional key-value storage for a chain node: the byte encoding
//! of keys and values, the typed table layer over an untyped byte store, and
//! the progress markers that record how much of the chain has been ingested.
pub mod client;
pub mod converters;
pub mod db;
pub mod gateway;
pub mod markers;
pub mod serialization;
pub mod types;
