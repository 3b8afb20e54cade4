//! Administrative client for a remote identity/credential-exchange agent.
//!
//! The agent is driven over an HTTP+JSON management API. This crate holds the
//! transport-independent core: endpoint resolution from a validated base
//! address, typed request construction from caller-supplied configuration
//! (including the invitation policy with its mutually exclusive option
//! groups), local validation of caller input, and classification of the
//! responses that come back. Performing the HTTP exchange itself is left to
//! the caller, who hands the prepared request to a transport and returns the
//! status and decoded body for classification.

pub mod agent;
pub mod endpoint;
pub mod error;
pub mod request;
pub mod response;
pub mod typing;
