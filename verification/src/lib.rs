//! A verified core for a GitHub OAuth device-flow client.
//!
//! The library holds the protocol logic of the flow: interpreting the
//! device-authorization response, classifying token-endpoint replies,
//! driving the poll-loop state machine to a terminal outcome, and
//! interpreting the identity check that validates a credential.  The
//! surrounding I/O (HTTP transport, prompts, configuration files) lives
//! outside the library and hands it plain values.

pub mod cli;
pub mod config;
pub mod json;
pub mod newrepo;
pub mod outcome;
pub mod poll;
pub mod response;
pub mod session;
pub mod validator;
