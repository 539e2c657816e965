//! Update-decision and fetch protocol for a self-updating launcher.
//!
//! Before the bundled application starts, a companion binary must be present
//! locally and up to date. This crate holds the verified logic of that
//! protocol: parsing and ordering of version strings, selection of the
//! platform artifact, interpretation of registry responses, inspection of the
//! locally installed binary, the staleness decision, and the startup state
//! machine. All network, filesystem and process I/O stays outside the crate;
//! callers hand in what they observed and act on what is decided.

pub mod decision;
pub mod error;
pub mod fetch;
pub mod inspect;
pub mod machine;
pub mod platform;
pub mod registry;
pub mod version;
