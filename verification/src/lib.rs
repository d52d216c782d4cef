//! Verified core of a semantic indexing and retrieval pipeline.
//!
//! Text is turned into a fixed-length vector by an embedding engine, stored
//! with its metadata in a collection of a vector store, and found again by
//! similarity. The engine and the store live outside this crate: the
//! functions here decide what is sent to them and what their answers mean.

pub mod error;
pub mod collection;
pub mod embedding;
pub mod point;
pub mod pipeline;
pub mod store;
