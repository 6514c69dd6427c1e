//! Explicit local caller trust bootstrap for canonical issuer-authorization policy.
//!
//! The policy codec proves canonical representation only; it does not grant
//! trust. Consuming a bootstrap marker is an explicit local caller decision to
//! trust one exact snapshot. It does not authenticate which human, operator,
//! deployment principal or module made that call.
use vstd::prelude::*;
use crate::be_bytes::bytes_equal;
use crate::issuer_policy::{
    credentials_distinct, DecodedIssuerAuthorizationPolicyV1, IssuerAuthorizationEntryV1,
};

verus! {

pub const LOCAL_ISSUER_POLICY_TRUST_BOOTSTRAP_PROFILE_V1: &'static str = "local-explicit-policy-bootstrap-v1";

/// One-shot local marker representing an explicit caller decision to trust one
/// exact canonical issuer-policy snapshot. It is neither `Clone` nor `Copy`,
/// and it is not an unforgeable operator or deployment capability.
#[derive(Debug)]
pub struct LocalIssuerPolicyTrustBootstrap {
    _private: (),
}

/// An immutable issuer-policy snapshot trusted by one explicit local caller:
/// the exact canonical bytes, the policy they decode to, and the bootstrap
/// profile label. It proves nothing about the caller, deployment
/// authorization, freshness, chronology or signatures.
#[derive(Debug)]
pub struct LocallyTrustedIssuerAuthorizationPolicyV1 {
    canonical_policy_bytes: Vec<u8>,
    policy: DecodedIssuerAuthorizationPolicyV1,
    bootstrap_profile: &'static str,
}

impl LocallyTrustedIssuerAuthorizationPolicyV1 {
    pub closed spec fn spec_canonical_policy_bytes(self) -> Seq<u8> {
        self.canonical_policy_bytes@
    }

    pub closed spec fn spec_policy(self) -> DecodedIssuerAuthorizationPolicyV1 {
        self.policy
    }

    pub closed spec fn spec_bootstrap_profile(self) -> &'static str {
        self.bootstrap_profile
    }

    /// Exact canonical bytes selected by the local bootstrap action.
    pub fn canonical_policy_bytes(&self) -> (r: &[u8])
        ensures
            r@ == self.spec_canonical_policy_bytes(),
    {
        self.canonical_policy_bytes.as_slice()
    }

    /// Read-only admitted policy semantics corresponding to the exact bytes.
    pub fn policy(&self) -> (r: &DecodedIssuerAuthorizationPolicyV1)
        ensures
            *r == self.spec_policy(),
    {
        &self.policy
    }

    /// Stable local bootstrap profile label: provenance metadata, not trusted
    /// time, caller identity or a semantic policy version.
    pub fn bootstrap_profile(&self) -> (r: &'static str)
        ensures
            r == self.spec_bootstrap_profile(),
    {
        self.bootstrap_profile
    }
}

/// Why a bootstrap refused its candidate: the policy decoder's own error, or
/// a decoded policy whose canonical encoding differs from the candidate.
#[derive(Debug, Clone, PartialEq, Eq)]
pub enum LocalIssuerPolicyTrustBootstrapError<E> {
    Policy(E),
    CanonicalRoundTripMismatch,
}

/// Begin one explicit local caller policy-trust bootstrap action. It inspects
/// no path, environment or remote source and proves no caller identity. The
/// marker type has exactly one value, so the result needs no description.
pub fn begin_local_issuer_policy_trust_bootstrap_v1() -> LocalIssuerPolicyTrustBootstrap {
    LocalIssuerPolicyTrustBootstrap { _private: () }
}

impl LocalIssuerPolicyTrustBootstrap {
    /// Consume this one-shot marker and trust exactly one already-canonical
    /// policy snapshot. `decoded` is what the fail-closed canonical policy
    /// decoder made of `candidate`: the policy revision, its entries in order
    /// and its canonical re-encoding, or the decoder's error. A policy that
    /// names one credential twice has no canonical form, and a re-encoding that
    /// differs from the candidate byte for byte is not the candidate: both are
    /// refused as a canonical round-trip mismatch.
    pub fn trust_exact_policy_bytes<E>(
        self,
        candidate: &[u8],
        decoded: Result<(u64, Vec<IssuerAuthorizationEntryV1>, Vec<u8>), E>,
    ) -> (res: Result<LocallyTrustedIssuerAuthorizationPolicyV1, LocalIssuerPolicyTrustBootstrapError<E>>)
        ensures
            match decoded {
                Err(e) => res == Err::<
                    LocallyTrustedIssuerAuthorizationPolicyV1,
                    LocalIssuerPolicyTrustBootstrapError<E>,
                >(LocalIssuerPolicyTrustBootstrapError::Policy(e)),
                Ok((revision, entries, canonical)) => if credentials_distinct(entries@)
                    && canonical@ == candidate@ {
                    res matches Ok(trusted) && trusted.spec_canonical_policy_bytes() == candidate@
                        && trusted.spec_policy().spec_policy_revision() == revision
                        && trusted.spec_policy().spec_entries() == entries@
                        && trusted.spec_bootstrap_profile()
                        == LOCAL_ISSUER_POLICY_TRUST_BOOTSTRAP_PROFILE_V1
                } else {
                    res == Err::<
                        LocallyTrustedIssuerAuthorizationPolicyV1,
                        LocalIssuerPolicyTrustBootstrapError<E>,
                    >(LocalIssuerPolicyTrustBootstrapError::CanonicalRoundTripMismatch)
                },
            },
    {
        match decoded {
            Err(e) => Err(LocalIssuerPolicyTrustBootstrapError::Policy(e)),
            Ok((revision, entries, canonical_policy_bytes)) => {
                let policy = match DecodedIssuerAuthorizationPolicyV1::new(revision, entries) {
                    Some(policy) => policy,
                    None => {
                        return Err(LocalIssuerPolicyTrustBootstrapError::CanonicalRoundTripMismatch);
                    },
                };
                if !bytes_equal(canonical_policy_bytes.as_slice(), candidate) {
                    return Err(LocalIssuerPolicyTrustBootstrapError::CanonicalRoundTripMismatch);
                }
                Ok(
                    LocallyTrustedIssuerAuthorizationPolicyV1 {
                        canonical_policy_bytes,
                        policy,
                        bootstrap_profile: LOCAL_ISSUER_POLICY_TRUST_BOOTSTRAP_PROFILE_V1,
                    },
                )
            },
        }
    }
}

} // verus!
