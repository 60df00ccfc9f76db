//! Core of a developer CLI that manages the lifecycle of a deployable
//! program: a credential store persisted across invocations, a sign-in
//! session, and a build -> package -> upload pipeline, plus a read-only
//! listing of previously uploaded programs.
//!
//! The library holds the decisions: what is persisted and when, how an
//! operator's organization choice is validated, in which order the deploy
//! pipeline runs and on which failures it stops, and how remote responses
//! are classified. The host around it performs the filesystem, subprocess
//! and network work and feeds the outcomes back in as plain values.
//! One-shot remote submissions (jobs and their tasks) carry no local
//! invariants and live wholly with the host.

pub mod auth;
pub mod deploy;
pub mod errors;
pub mod helpers;
pub mod list;
pub mod organization;
pub mod program;
pub mod response;
pub mod store;
pub mod text;
