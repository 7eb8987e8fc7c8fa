//! Content-source composition with diagnostic-context propagation.
//!
//! A tree of content providers resolves a request path to either "not found"
//! or a deferred content producer. A diagnostic-context decorator wraps any
//! provider so that every issue raised beneath it — at resolution time or
//! later, when the producer materializes content — carries the decorator's
//! owning path and description in its provenance chain, innermost scope
//! first. An introspection capability exposes the provider tree to debugging
//! facilities, and the decorator forwards it transparently.

pub mod config;
pub mod execution_state;
pub mod issues;
pub mod laws;
pub mod source;
mod text;
pub mod webpack;
