//! Typed client bindings for the Transitland v2 REST API.
//!
//! The library models the API's domain entities (feeds, feed versions,
//! agencies, operators, routes, stops, trips), maps each entity to its REST
//! paths through a resource-path capability, builds request URLs and query
//! parameters, and decodes the API's paginated JSON envelopes into typed
//! collections.
//!
//! Network transport is deliberately outside this crate's scope: a caller
//! issues the HTTP GET itself and hands the response body text to the decode
//! functions.

pub mod api;
pub mod data;
pub mod error;
pub mod json;
pub mod text;
