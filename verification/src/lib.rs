//! Credential vault and version-adaptive client for a local Elasticsearch
//! console.
//!
//! The library covers the parts of the application with real invariants:
//! authenticated encryption of endpoint passwords, key management, the
//! one-time migration away from the legacy two-tier secret storage, version
//! detection for the remote service, and the capability gate that picks API
//! path variants per detected version.  I/O (files, HTTP, the database) lives
//! outside the library; everything here is a function from plain values to
//! plain values.

pub mod api;
pub mod client;
pub mod color;
pub mod config;
pub mod console;
pub mod crypto;
pub mod dashboard;
pub mod endpoints;
pub mod errors;
pub mod format;
pub mod indices;
pub mod migrate;
pub mod node;
pub mod search;
pub mod shards;
pub mod text;
pub mod vault;
pub mod version;
