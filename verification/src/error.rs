//! Runtime failures, and how an inbox answers them.

use vstd::prelude::*;

use crate::actor_fetch::ActorResolveError;
use crate::http_signatures::KeyError;
use crate::outbound::SendError;
use crate::status::{BAD_GATEWAY, INTERNAL_SERVER_ERROR};
use crate::store::StoreError;

verus! {

#[verifier::external_type_specification]
#[verifier::external_body]
pub struct ExIoError(std::io::Error);

/// Why a runtime operation failed.
#[derive(Debug)]
pub enum RuntimeError {
    /// The server socket could not be bound.
    Bind(std::io::Error),
    /// The server failed while serving.
    Serve(std::io::Error),
    /// The store failed.
    Storage(StoreError),
    /// The actor key could not be generated.
    ActorKeyGeneration(KeyError),
    /// An activity could not be delivered, or the sender could not be set up.
    ActivitySender(SendError),
    /// A remote actor could not be resolved, or the resolver could not be
    /// set up.
    ActorResolver(ActorResolveError),
}

/// Whether a failure to handle an inbox activity lies with a remote server:
/// a delivery refused for its address, a failed request, or an
/// unsuccessful answer.
pub open spec fn is_remote_failure(error: RuntimeError) -> bool {
    match error {
        RuntimeError::ActivitySender(SendError::PrivateInboxAddress { .. }) => true,
        RuntimeError::ActivitySender(SendError::Request(_)) => true,
        RuntimeError::ActivitySender(SendError::UnsuccessfulStatus { .. }) => true,
        _ => false,
    }
}

/// The status an inbox answers when handling an accepted activity fails:
/// `502 Bad Gateway` for a remote failure, `500 Internal Server Error`
/// otherwise.
pub fn inbox_failure_status(error: &RuntimeError) -> (status: u16)
    ensures
        is_remote_failure(*error) ==> status == BAD_GATEWAY,
        !is_remote_failure(*error) ==> status == INTERNAL_SERVER_ERROR,
{
    match error {
        RuntimeError::ActivitySender(SendError::PrivateInboxAddress { .. }) => BAD_GATEWAY,
        RuntimeError::ActivitySender(SendError::Request(_)) => BAD_GATEWAY,
        RuntimeError::ActivitySender(SendError::UnsuccessfulStatus { .. }) => BAD_GATEWAY,
        _ => INTERNAL_SERVER_ERROR,
    }
}

} // verus!
