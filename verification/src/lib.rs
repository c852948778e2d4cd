//! A small REST-to-database gateway, verified with Verus.
//!
//! The library holds the request-level logic of the gateway: turning query
//! parameters into a driver filter document, extracting the `value` /
//! `values` payload from a JSON body, building the update documents for the
//! supported operations, matching a request path to a route, building the
//! SQL text for the relational lookup, and mapping every driver outcome to
//! an HTTP status and body.  The HTTP server and the database drivers
//! themselves live outside the library and only hand plain values in and
//! out.

pub mod api;
pub mod bsondoc;
pub mod commands;
pub mod config_text;
pub mod json;
pub mod payload;
pub mod postgres;
pub mod response;
pub mod router;
pub mod strutil;
pub mod update;
