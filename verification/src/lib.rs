//! Telemetry of a model router: what its spans, log events and metrics carry, and how they are
//! set up.
//!
//! The library decides; the host performs. A [`span::Span`] collects the effects that a host has
//! to perform on a tracing span, and [`setup`] says step by step what to do to the process.

pub mod config;
pub mod outside;
pub mod propagation;
pub mod protocol;
pub mod root;
pub mod root_laws;
pub mod run;
pub mod run_laws;
pub mod setup;
pub mod span;
pub mod text;
pub mod vocabulary;
