//! Connection establishment as a state machine: one handshake attempt per
//! step, following at most one server-issued redirect.
//!
//! The caller opens a transport, attempts the protocol handshake, and feeds
//! the outcome back in. A redirect on the first attempt moves to a single
//! retry against the redirect target; a redirect on the retry is a protocol
//! violation and aborts. Encryption is demanded unconditionally, so there
//! is no unencrypted fallback to decide about here.

use vstd::prelude::*;
use crate::error::LakeApi2SqlError;

verus! {

/// The outcome of one handshake attempt, as the transport reports it.
pub enum ConnectOutcome {
    /// The handshake succeeded and the session is authenticated.
    Connected,
    /// The server demands that a different endpoint be used.
    Routed { host: String, port: u16 },
    /// The handshake failed for any other reason; the message describes it.
    Failed(String),
}

/// Where the establishment stands between attempts.
pub enum ConnectPhase {
    /// No attempt has been made yet.
    FirstAttempt,
    /// The first attempt was redirected; the retry targets this endpoint.
    /// The caller closes the prior transport before opening the new one.
    Retrying { host: String, port: u16 },
    /// A handshake succeeded; the session stands.
    Established,
    /// The establishment failed for good.
    Aborted(LakeApi2SqlError),
}

/// Advances the establishment by one handshake outcome.
///
/// A redirect is honored at most once: in `FirstAttempt` it yields a retry
/// against the redirect target, in `Retrying` it is fatal.
pub fn connect_step(phase: ConnectPhase, outcome: ConnectOutcome) -> (next: ConnectPhase)
    requires
        phase is FirstAttempt || phase is Retrying,
    ensures
        outcome is Connected ==> next is Established,
        phase is FirstAttempt ==> (outcome matches ConnectOutcome::Routed { host, port }
            ==> (next matches ConnectPhase::Retrying { host: h, port: p } && h@ == host@ && p
            == port)),
        phase is Retrying ==> (outcome is Routed ==> (next matches ConnectPhase::Aborted(e)
            && (e matches LakeApi2SqlError::TiberiusError(m) && m@
            == "the server redirected a second time"@))),
        outcome matches ConnectOutcome::Failed(msg) ==> (next matches ConnectPhase::Aborted(e)
            && (e matches LakeApi2SqlError::TiberiusError(m) && m@ == msg@)),
{
    match outcome {
        ConnectOutcome::Connected => ConnectPhase::Established,
        ConnectOutcome::Routed { host, port } => {
            match phase {
                ConnectPhase::FirstAttempt => ConnectPhase::Retrying { host, port },
                _ => ConnectPhase::Aborted(
                    LakeApi2SqlError::TiberiusError(
                        String::from_str("the server redirected a second time"),
                    ),
                ),
            }
        },
        ConnectOutcome::Failed(msg) => ConnectPhase::Aborted(LakeApi2SqlError::TiberiusError(msg)),
    }
}

} // verus!
