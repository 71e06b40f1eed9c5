//! A small text store: records of text kept under generated identifiers,
//! read through a cache that sits in front of a durable store, deleted, and
//! searched for a term.
//!
//! The I/O lives outside this crate. What lives here is every decision:
//! identifiers, term validation and matching, the request protocol that
//! coordinates cache and store (`protocol`), its metrics, and the laws that
//! the protocol obeys against a model of the two stores (`laws`).

pub mod config;
pub mod ids;
pub mod laws;
pub mod metrics;
pub mod payloads;
pub mod protocol;
pub mod requests;
pub mod text;

pub use config::{default_collection, default_database, Config, MongoDB};
pub use ids::TextId;
pub use metrics::Metrics;
pub use payloads::{
    internal_error, not_found, render, Body, ErrorResponse, InsertedResponse, Message,
    SearchParams, SearchResponse, Text, TextPayload,
};
pub use protocol::{start, step, Action, EXPIRE, Event, Operation, Reply, ServiceError, Stage};
