//! Catalog-to-search-index synchronization library.
//!
//! The library holds the verified core of a sync service: entity
//! descriptors for the catalog types (books, authors, sequences,
//! genres), batch grouping for streamed extraction, the per-entity
//! pipeline plan (upsert batches, then index configuration), the
//! orchestrator's outcome reduction, and the trigger authorization
//! decision. All I/O (relational store, search engine, HTTP) lives
//! outside the library and hands it plain values.

pub mod batch;
pub mod config;
pub mod index_model;
pub mod models;
pub mod pipeline;
pub mod trigger;
