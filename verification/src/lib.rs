//! Transport negotiation and bootstrap core of a small static-content server.
//!
//! The crate decides, from a declarative configuration, which listeners to
//! bind, which protocol a TLS client and the server agree on, what goes into
//! each security context, and in which order the request pipeline runs.
//! Sockets, files and the HTTP stack stay with the caller.

pub mod alpn;
pub mod bootstrap;
pub mod config;
pub mod context;
pub mod error;
pub mod pipeline;
pub mod text;
