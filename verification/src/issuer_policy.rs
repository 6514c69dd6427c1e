//! Admitted issuer-authorization policy semantics as plain values.
//!
//! The canonical policy byte codec belongs to the physics crate; this module
//! holds what its decoder admits and what scope evaluation reads: a revision
//! and one entry per issuer credential, no credential listed twice.
use vstd::prelude::*;

verus! {

pub const ISSUER_CREDENTIAL_ID_LEN: usize = 32;

/// Lifecycle status of one issuer credential.
#[derive(Copy, Clone, Debug, Hash, PartialEq, Eq, Structural)]
pub enum IssuerCredentialStatusV1 {
    Active,
    Disabled,
    RevokedCompromised,
}

/// Semantic claim profile an issuer may attest.
#[derive(Copy, Clone, Debug, Hash, PartialEq, Eq, Structural)]
pub enum IssuerClaimProfileV1 {
    EndpointSample,
    ConsecutivePresence,
}

/// Persistence-session bootstrap profile an issuer may attest under.
#[derive(Copy, Clone, Debug, Hash, PartialEq, Eq, Structural)]
pub enum IssuerSessionProfileV1 {
    OsCsprng,
}

/// Attestation signature suite an issuer may use.
#[derive(Copy, Clone, Debug, Hash, PartialEq, Eq, Structural)]
pub enum IssuerAttestationSuiteV1 {
    HybridEd25519MlDsa65,
}

/// Cryptographic policy profile an issuer may use.
#[derive(Copy, Clone, Debug, Hash, PartialEq, Eq, Structural)]
pub enum IssuerCryptoPolicyProfileV1 {
    HybridPqcAuth,
}

/// One admitted policy entry: a credential, its status, and the exact sets of
/// physical authorities, claim profiles, session profiles, attestation suites
/// and crypto-policy profiles it is scoped to.
#[derive(Clone, Debug, PartialEq, Eq)]
pub struct IssuerAuthorizationEntryV1 {
    pub credential_id: [u8; ISSUER_CREDENTIAL_ID_LEN],
    pub status: IssuerCredentialStatusV1,
    pub physical_authority_ids: Vec<u128>,
    pub claim_profiles: Vec<IssuerClaimProfileV1>,
    pub session_profiles: Vec<IssuerSessionProfileV1>,
    pub attestation_suites: Vec<IssuerAttestationSuiteV1>,
    pub crypto_policy_profiles: Vec<IssuerCryptoPolicyProfileV1>,
}

/// No two entries name the same credential.
pub open spec fn credentials_distinct(entries: Seq<IssuerAuthorizationEntryV1>) -> bool {
    forall|i: int, j: int|
        0 <= i < entries.len() && 0 <= j < entries.len() && i != j ==> (#[trigger] entries[i]).credential_id@
            != (#[trigger] entries[j]).credential_id@
}

/// Admitted issuer-authorization policy semantics: a revision and entries for
/// pairwise distinct credentials.
#[derive(Debug, PartialEq, Eq)]
pub struct DecodedIssuerAuthorizationPolicyV1 {
    policy_revision: u64,
    entries: Vec<IssuerAuthorizationEntryV1>,
}

impl DecodedIssuerAuthorizationPolicyV1 {
    #[verifier::type_invariant]
    spec fn distinct(self) -> bool {
        credentials_distinct(self.entries@)
    }

    pub closed spec fn spec_policy_revision(self) -> u64 {
        self.policy_revision
    }

    pub closed spec fn spec_entries(self) -> Seq<IssuerAuthorizationEntryV1> {
        self.entries@
    }

    /// The policy with the given revision and entries, or `None` when two
    /// entries name the same credential.
    pub fn new(policy_revision: u64, entries: Vec<IssuerAuthorizationEntryV1>) -> (r: Option<Self>)
        ensures
            r is Some <==> credentials_distinct(entries@),
            r matches Some(p) ==> p.spec_policy_revision() == policy_revision && p.spec_entries()
                == entries@,
    {
        let n = entries.len();
        let mut i: usize = 0;
        while i < n
            invariant
                n == entries@.len(),
                i <= n,
                forall|a: int, b: int|
                    0 <= a < i && 0 <= b < n && a != b ==> (#[trigger] entries@[a]).credential_id@
                        != (#[trigger] entries@[b]).credential_id@,
            decreases n - i,
        {
            let mut j: usize = 0;
            while j < n
                invariant
                    n == entries@.len(),
                    i < n,
                    j <= n,
                    forall|a: int, b: int|
                        0 <= a < i && 0 <= b < n && a != b ==> (#[trigger] entries@[a]).credential_id@
                            != (#[trigger] entries@[b]).credential_id@,
                    forall|b: int|
                        0 <= b < j && b != i ==> entries@[i as int].credential_id@ != (#[trigger] entries@[
                            b
                        ]).credential_id@,
                decreases n - j,
            {
                if j != i && crate::be_bytes::bytes_equal(
                    entries[i].credential_id.as_slice(),
                    entries[j].credential_id.as_slice(),
                ) {
                    proof {
                        assert(!credentials_distinct(entries@)) by {
                            assert(entries@[i as int].credential_id@ == entries@[j as int].credential_id@);
                        }
                    }
                    return None;
                }
                j = j + 1;
            }
            i = i + 1;
        }
        Some(DecodedIssuerAuthorizationPolicyV1 { policy_revision, entries })
    }

    pub fn policy_revision(&self) -> (r: u64)
        ensures
            r == self.spec_policy_revision(),
    {
        self.policy_revision
    }

    pub fn entries(&self) -> (r: &[IssuerAuthorizationEntryV1])
        ensures
            r@ == self.spec_entries(),
            credentials_distinct(r@),
    {
        proof {
            use_type_invariant(self);
        }
        self.entries.as_slice()
    }
}

} // verus!
