//! Admin username/password authentication against a hosted identity pool.
//!
//! The library carries the logic of a small command-line tool: it loads the
//! pool and client identifiers from a JSON config file, resolves the user's
//! credentials from command-line flags or interactive prompts, builds the
//! single authentication request, and extracts the identity token from the
//! provider's answer. All terminal, file and network traffic stays with the
//! caller; the functions here work on plain values and carry contracts.

pub mod auth;
pub mod config;
pub mod credentials;
