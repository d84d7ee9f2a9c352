//! Lazily resolved, environment-backed configuration attributes.
//!
//! An attribute is bound to one environment-variable name and an optional
//! default. Resolution never fails: a set variable is returned verbatim
//! (even when empty), an unset one falls back to the default, and a missing
//! default yields absence. A configuration object aggregates a table of
//! named attributes, and a singleton state machine guarantees that one
//! shared instance is created at most once.
//!
//! Reading the process environment is the caller's job: every resolver here
//! takes the current lookup result as a plain value, so each call models one
//! fresh read with no caching.

pub mod attr;
pub mod config;
pub mod singleton;
