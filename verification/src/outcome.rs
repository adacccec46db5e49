//! The terminal result of one authentication attempt.

use vstd::prelude::*;

verus! {

/// Terminal result of one device-flow authentication attempt.
///
/// `Authorized` is the only variant that carries a credential; the other
/// three say why no credential was obtained.
#[derive(Debug, Clone, PartialEq, Eq)]
pub enum AuthOutcome {
    /// The user completed the browser step; the payload is the access token.
    Authorized(String),
    /// The device code expired before the user authorized the device.
    Expired,
    /// The user explicitly refused access.
    Denied,
    /// The server sent a malformed or unrecognized payload; the payload is
    /// a diagnostic message.
    ProtocolError(String),
}

/// Mathematical model of an [`AuthOutcome`]: string payloads as
/// character sequences.
pub enum OutcomeModel {
    Authorized(Seq<char>),
    Expired,
    Denied,
    ProtocolError(Seq<char>),
}

impl View for AuthOutcome {
    type V = OutcomeModel;

    open spec fn view(&self) -> OutcomeModel {
        match self {
            AuthOutcome::Authorized(t) => OutcomeModel::Authorized(t@),
            AuthOutcome::Expired => OutcomeModel::Expired,
            AuthOutcome::Denied => OutcomeModel::Denied,
            AuthOutcome::ProtocolError(m) => OutcomeModel::ProtocolError(m@),
        }
    }
}

} // verus!
