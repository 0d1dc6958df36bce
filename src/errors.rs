use vstd::prelude::*;

verus! {

/// Failures of the registry's operations. Each variant has a stable numeric
/// code (see [`Error::code`]) that external consumers may rely on.
#[derive(Clone, Copy, Debug, PartialEq, Eq, Structural)]
pub enum Error {
    AlreadyInitialized,
    NotInitialized,
    UnauthorizedAttestor,
    AttestorAlreadyRegistered,
    AttestorNotRegistered,
    ReplayAttack,
    InvalidTimestamp,
    AttestationNotFound,
    InvalidPublicKey,
    InvalidEndpointFormat,
    EndpointNotFound,
    EndpointAlreadyExists,
    ServicesNotConfigured,
    InvalidServiceType,
    SessionNotFound,
    InvalidSessionId,
    SessionReplayAttack,
    InvalidQuote,
    StaleQuote,
    NoQuotesAvailable,
    QuoteNotFound,
    InvalidTransactionIntent,
    ComplianceNotMet,
}

impl Error {
    /// The wire code of each error.
    pub open spec fn spec_code(self) -> u32 {
        match self {
            Error::AlreadyInitialized => 1,
            Error::NotInitialized => 2,
            Error::UnauthorizedAttestor => 3,
            Error::AttestorAlreadyRegistered => 4,
            Error::AttestorNotRegistered => 5,
            Error::ReplayAttack => 6,
            Error::InvalidTimestamp => 7,
            Error::AttestationNotFound => 8,
            Error::InvalidPublicKey => 9,
            Error::InvalidEndpointFormat => 10,
            Error::EndpointNotFound => 11,
            Error::EndpointAlreadyExists => 12,
            Error::ServicesNotConfigured => 13,
            Error::InvalidServiceType => 14,
            Error::SessionNotFound => 16,
            Error::InvalidSessionId => 17,
            Error::SessionReplayAttack => 18,
            Error::InvalidQuote => 19,
            Error::StaleQuote => 20,
            Error::NoQuotesAvailable => 21,
            Error::QuoteNotFound => 22,
            Error::InvalidTransactionIntent => 23,
            Error::ComplianceNotMet => 24,
        }
    }

    /// Returns the stable numeric code of this error.
    pub fn code(&self) -> (r: u32)
        ensures
            r == self.spec_code(),
    {
        match self {
            Error::AlreadyInitialized => 1,
            Error::NotInitialized => 2,
            Error::UnauthorizedAttestor => 3,
            Error::AttestorAlreadyRegistered => 4,
            Error::AttestorNotRegistered => 5,
            Error::ReplayAttack => 6,
            Error::InvalidTimestamp => 7,
            Error::AttestationNotFound => 8,
            Error::InvalidPublicKey => 9,
            Error::InvalidEndpointFormat => 10,
            Error::EndpointNotFound => 11,
            Error::EndpointAlreadyExists => 12,
            Error::ServicesNotConfigured => 13,
            Error::InvalidServiceType => 14,
            Error::SessionNotFound => 16,
            Error::InvalidSessionId => 17,
            Error::SessionReplayAttack => 18,
            Error::InvalidQuote => 19,
            Error::StaleQuote => 20,
            Error::NoQuotesAvailable => 21,
            Error::QuoteNotFound => 22,
            Error::InvalidTransactionIntent => 23,
            Error::ComplianceNotMet => 24,
        }
    }
}

} // verus!
