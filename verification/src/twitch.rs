//! The credential lifecycle: keep one application access token valid. The
//! stored token is validated first; when none is stored or validation
//! fails, one full credential-grant exchange is attempted, and a token
//! obtained that way is persisted before use. A second failure is fatal for
//! the current request.
//!
//! The host performs the actual calls and store writes; this module is the
//! decision function they consult between steps.

use vstd::prelude::*;

verus! {

/// Where the token acquisition stands.
pub enum CredState {
    /// Nothing attempted yet.
    Init,
    /// The primary attempt is in flight: an exchange when no token was
    /// stored, otherwise a validation of the stored token.
    Primary { via_exchange: bool },
    /// The single re-acquisition exchange is in flight.
    Fallback,
    /// A freshly obtained token is being persisted.
    Storing { token: String },
    /// A valid token is at hand.
    Done { token: String },
    /// Both attempts failed; no message can be sent for this request.
    Failed,
}

/// What the host reports back.
pub enum CredEvent {
    /// Start, with whatever token the store held.
    Begin { stored: Option<String> },
    /// The validation or exchange in flight returned this token.
    Succeeded { token: String },
    /// The validation or exchange in flight failed.
    FailedAttempt,
    /// The token was persisted.
    Stored,
}

/// What the host must do next.
pub enum CredAction {
    /// Validate this token against the identity provider.
    Validate { token: String },
    /// Perform a full credential-grant exchange.
    Exchange,
    /// Persist this token to the credential slot.
    StoreToken { token: String },
    /// Use this token.
    Finish { token: String },
    /// Report failure for this request.
    GiveUp,
}

/// One step of the credential lifecycle: a stored token is validated, a
/// missing or invalid one is re-acquired by exchange (once), and every
/// token obtained by exchange is persisted before use. An event that does
/// not belong to the state fails the request.
pub fn credentials_step(state: CredState, event: CredEvent) -> (r: (CredState, CredAction))
    ensures
        match (state, event) {
            (CredState::Init, CredEvent::Begin { stored }) => match stored {
                Some(t) => r.0 == (CredState::Primary { via_exchange: false }) && (
                r.1 matches CredAction::Validate { token } && token@ == t@),
                None => r.0 == (CredState::Primary { via_exchange: true }) && r.1 is Exchange,
            },
            (CredState::Primary { via_exchange }, CredEvent::Succeeded { token: t }) => {
                if via_exchange {
                    (r.0 matches CredState::Storing { token } && token@ == t@) && (
                    r.1 matches CredAction::StoreToken { token } && token@ == t@)
                } else {
                    (r.0 matches CredState::Done { token } && token@ == t@) && (
                    r.1 matches CredAction::Finish { token } && token@ == t@)
                }
            },
            (CredState::Primary { .. }, CredEvent::FailedAttempt) => r.0 is Fallback
                && r.1 is Exchange,
            (CredState::Fallback, CredEvent::Succeeded { token: t }) => (
            r.0 matches CredState::Storing { token } && token@ == t@) && (
            r.1 matches CredAction::StoreToken { token } && token@ == t@),
            (CredState::Fallback, CredEvent::FailedAttempt) => r.0 is Failed && r.1 is GiveUp,
            (CredState::Storing { token: t }, CredEvent::Stored) => (
            r.0 matches CredState::Done { token } && token@ == t@) && (
            r.1 matches CredAction::Finish { token } && token@ == t@),
            _ => r.0 is Failed && r.1 is GiveUp,
        },
{
    match (state, event) {
        (CredState::Init, CredEvent::Begin { stored }) => match stored {
            Some(t) => (
                CredState::Primary { via_exchange: false },
                CredAction::Validate { token: t },
            ),
            None => (CredState::Primary { via_exchange: true }, CredAction::Exchange),
        },
        (CredState::Primary { via_exchange }, CredEvent::Succeeded { token }) => {
            if via_exchange {
                (CredState::Storing { token: token.clone() }, CredAction::StoreToken { token })
            } else {
                (CredState::Done { token: token.clone() }, CredAction::Finish { token })
            }
        },
        (CredState::Primary { .. }, CredEvent::FailedAttempt) => (
            CredState::Fallback,
            CredAction::Exchange,
        ),
        (CredState::Fallback, CredEvent::Succeeded { token }) => (
            CredState::Storing { token: token.clone() },
            CredAction::StoreToken { token },
        ),
        (CredState::Fallback, CredEvent::FailedAttempt) => (CredState::Failed, CredAction::GiveUp),
        (CredState::Storing { token }, CredEvent::Stored) => (
            CredState::Done { token: token.clone() },
            CredAction::Finish { token },
        ),
        _ => (CredState::Failed, CredAction::GiveUp),
    }
}

} // verus!
