//! Verified core of a grammar- and spelling-checking HTTP service.
//!
//! The crate holds the request-processing pipeline around an external
//! natural-language analysis engine: payload validation, Unicode-correct
//! span and context computation, finding classification, response assembly,
//! authentication decisions, configuration parsing, and the selection of
//! metric events to record.  The engine itself is an opaque collaborator:
//! callers run it and hand its findings in as plain values.

pub mod api;
pub mod auth;
pub mod check;
pub mod classify;
pub mod config;
pub mod laws;
pub mod localize;
pub mod telemetry;
pub mod textutil;
