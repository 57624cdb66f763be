//! Verified core of a command-line client that reads time-ordered documents
//! from an Elasticsearch-like search service.
pub mod text;
pub mod error;
pub mod params;
pub mod dates;
pub mod builder;
pub mod plan;
pub mod paginator;
pub mod snapshot;
pub mod config;
pub mod commands;
pub mod session;
