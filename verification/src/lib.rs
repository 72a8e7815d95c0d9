//! Session credentials and end-of-session reconciliation for a
//! spoken-conversation practice service.
//!
//! The two operations of the service, issuing a realtime credential and
//! finalizing a session, talk to a relational store and to a transcription
//! provider between their decisions. Here each operation is a chain of
//! phases: a phase names the request to make next, and its transition takes
//! the reply and yields the following phase or the outcome. The caller runs
//! the requests; every decision is made, and verified, in this crate.

pub mod api;
pub mod auth;
pub mod error;
pub mod ident;
pub mod models;
pub mod services;
pub mod telemetry;
pub mod time;
