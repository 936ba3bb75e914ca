//! A typed, transport-free client library for a cluster scheduler's HTTP API.
//!
//! The library models the scheduler's jobs, task groups, tasks and
//! allocations, maps them to and from JSON under a fixed wire schema, and
//! builds the request that each endpoint expects. Sending a request is left
//! to the caller, who hands the body of the answer back to be read.
//!
//! - [`base64`]: bytes as text.
//! - [`json`]: JSON values as trees.
//! - [`wire`]: what it is for a type to have a place in the wire schema, and
//!   how the fields of an object are read and written.
//! - [`scalars`], [`containers`]: the wire forms of the basic types.
//! - [`jobs`]: the entities.
//! - [`schema`]: the wire form of each entity, field by field.
//! - [`text`]: trees as JSON text.
//! - [`client`]: the operations, one per endpoint.
//! - [`invariants`]: what the scheduler keeps true of its entities.

pub mod base64;
pub mod json;
pub mod wire;
pub mod scalars;
pub mod containers;
pub mod jobs;
pub mod schema;
pub mod text;
pub mod client;
pub mod invariants;
