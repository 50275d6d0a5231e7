//! Runtime configuration choices.

use vstd::prelude::*;

verus! {

#[verifier::external_type_specification]
#[verifier::external_body]
pub struct ExPathBuf(std::path::PathBuf);

/// Trusted: `PathBuf::clone` copies the path; nothing more is stated of it.
pub assume_specification[<std::path::PathBuf as std::clone::Clone>::clone](path: &std::path::PathBuf) -> (copy: std::path::PathBuf);

/// How an inbox treats unsigned requests.
#[derive(Clone, Copy, Debug, PartialEq, Eq, Structural)]
pub enum InboxAuthPolicy {
    /// Every activity must carry a valid HTTP signature of its actor.
    RequireSigned,
    /// Unsigned activities are accepted; for local development only.
    AllowUnsignedInsecureDev,
}

/// Controls which network addresses may receive outgoing requests.
#[derive(Clone, Copy, Debug, PartialEq, Eq, Structural)]
pub enum OutboundAddressPolicy {
    /// Allows only publicly routable destination addresses.
    PublicOnly,
    /// Allows private and special-use destinations. This disables SSRF
    /// protection.
    AllowPrivateAddress,
}

impl Default for OutboundAddressPolicy {
    /// Public destinations only.
    fn default() -> (policy: Self)
        ensures
            policy == OutboundAddressPolicy::PublicOnly,
    {
        OutboundAddressPolicy::PublicOnly
    }
}

/// Where a runtime keeps its state.
#[derive(Clone, Debug, PartialEq, Eq)]
pub enum StorageConfig {
    /// A database that lives as long as the process.
    InMemory,
    /// A database file.
    Sqlite { path: std::path::PathBuf },
}

} // verus!
