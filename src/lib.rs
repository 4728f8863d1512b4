//! The verified core of a node's HTTP gateway: route table, middleware
//! configuration, path-parameter parsing, error mapping, the lifecycle of the
//! listener and the bookkeeping of its tasks.
pub mod error;
pub mod handlers;
pub mod ident;
pub mod lifecycle;
pub mod pipeline;
pub mod query;
pub mod registry;
pub mod routes;
