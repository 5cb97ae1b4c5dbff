//! The TLS server policy: the one protocol version the accepting side pins,
//! stated as an equal minimum and maximum. The legacy client cannot perform
//! normal version negotiation, so the bounds are deliberately equal; the TLS
//! library that enforces them lives with the transport.

use vstd::prelude::*;

verus! {

/// The wire code of the pinned TLS protocol version.
pub const PINNED_TLS_VERSION: u16 = 0x0303;

/// The version bounds handed to the accepting TLS context.
#[derive(Debug, Clone, Copy, PartialEq, Eq, Structural)]
pub struct TlsServerPolicy {
    /// Lowest protocol version offered.
    pub min_version: u16,
    /// Highest protocol version offered.
    pub max_version: u16,
}

/// A policy that admits exactly one protocol version.
pub open spec fn pinned_to_one_version(p: TlsServerPolicy) -> bool {
    p.min_version == p.max_version
}

/// The policy of every accepting context this client builds: both bounds
/// equal the pinned version, so negotiation can land nowhere else.
pub fn server_tls_policy() -> (r: TlsServerPolicy)
    ensures
        pinned_to_one_version(r),
        r.min_version == PINNED_TLS_VERSION,
{
    TlsServerPolicy { min_version: PINNED_TLS_VERSION, max_version: PINNED_TLS_VERSION }
}

} // verus!
