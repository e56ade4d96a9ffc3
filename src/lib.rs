//! Picks the backend that produces anisette headers.
//!
//! Backends are tried in a fixed order (platform-native, then a locally
//! provisioned identity, then a remote service) and the first one that comes
//! up is handed out, tagged with where its identity comes from. A resolution
//! is a state machine: the caller performs each backend step it asks for and
//! reports whether the step succeeded.

pub mod configuration;
pub mod error;
pub mod laws;
pub mod provider;
pub mod resolver;
