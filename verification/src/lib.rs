//! Decision logic for signing and notarizing macOS application bundles.
//!
//! Every external effect (running a tool, touching the file system) is
//! described by a [`command::Action`]; the caller performs it and reports
//! what happened as a [`command::Outcome`]. The workflows in this crate
//! decide, from the outcomes seen so far, what has to happen next.

pub mod auth;
pub mod command;
pub mod error;
pub mod keychain;
pub mod notarize;
pub mod settings;
pub mod sign;
pub mod text;
pub mod workflow;
