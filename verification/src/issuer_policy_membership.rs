//! Deterministic membership evaluation for one exact locally trusted
//! issuer-policy snapshot.
//!
//! No cryptography is verified here and no issuer-authorized evidence is
//! constructed: evaluation answers only whether one plain query is within the
//! scope of one locally trusted policy snapshot.
use vstd::prelude::*;
use crate::be_bytes::bytes_equal;
use crate::issuer_policy::{
    credentials_distinct, IssuerAttestationSuiteV1, IssuerAuthorizationEntryV1,
    IssuerClaimProfileV1, IssuerCredentialStatusV1, IssuerCryptoPolicyProfileV1,
    IssuerSessionProfileV1, ISSUER_CREDENTIAL_ID_LEN,
};
use crate::issuer_policy_trust::LocallyTrustedIssuerAuthorizationPolicyV1;

verus! {

/// Plain authorization query. Its fields are not authenticated merely because
/// this structure exists.
#[derive(Debug, Clone, Copy, PartialEq, Eq)]
pub struct IssuerAuthorizationQueryV1 {
    pub credential_id: [u8; ISSUER_CREDENTIAL_ID_LEN],
    pub physical_authority_id: u128,
    pub claim_profile: IssuerClaimProfileV1,
    pub session_profile: IssuerSessionProfileV1,
    pub attestation_suite: IssuerAttestationSuiteV1,
    pub crypto_policy_profile: IssuerCryptoPolicyProfileV1,
}

#[derive(Debug, Clone, Copy, PartialEq, Eq, Structural)]
pub enum IssuerPolicyScopeDenyReasonV1 {
    UnknownCredential,
    CredentialDisabled,
    CredentialRevokedCompromised,
    ZeroPhysicalAuthorityId,
    PhysicalAuthorityNotAllowed,
    ClaimProfileNotAllowed,
    SessionProfileNotAllowed,
    AttestationSuiteNotAllowed,
    CryptoPolicyProfileNotAllowed,
}

/// What evaluation decides for the entry of the queried credential: the
/// credential must be active, the physical authority non-zero, and every
/// queried value a member of the entry's scope, checked in this order.
pub open spec fn entry_scope_outcome(
    entry: IssuerAuthorizationEntryV1,
    query: IssuerAuthorizationQueryV1,
) -> Result<(), IssuerPolicyScopeDenyReasonV1> {
    if entry.status == IssuerCredentialStatusV1::Disabled {
        Err(IssuerPolicyScopeDenyReasonV1::CredentialDisabled)
    } else if entry.status == IssuerCredentialStatusV1::RevokedCompromised {
        Err(IssuerPolicyScopeDenyReasonV1::CredentialRevokedCompromised)
    } else if query.physical_authority_id == 0 {
        Err(IssuerPolicyScopeDenyReasonV1::ZeroPhysicalAuthorityId)
    } else if !entry.physical_authority_ids@.contains(query.physical_authority_id) {
        Err(IssuerPolicyScopeDenyReasonV1::PhysicalAuthorityNotAllowed)
    } else if !entry.claim_profiles@.contains(query.claim_profile) {
        Err(IssuerPolicyScopeDenyReasonV1::ClaimProfileNotAllowed)
    } else if !entry.session_profiles@.contains(query.session_profile) {
        Err(IssuerPolicyScopeDenyReasonV1::SessionProfileNotAllowed)
    } else if !entry.attestation_suites@.contains(query.attestation_suite) {
        Err(IssuerPolicyScopeDenyReasonV1::AttestationSuiteNotAllowed)
    } else if !entry.crypto_policy_profiles@.contains(query.crypto_policy_profile) {
        Err(IssuerPolicyScopeDenyReasonV1::CryptoPolicyProfileNotAllowed)
    } else {
        Ok(())
    }
}

/// Some entry names the credential `id`.
pub open spec fn has_credential(entries: Seq<IssuerAuthorizationEntryV1>, id: Seq<u8>) -> bool {
    exists|i: int| 0 <= i < entries.len() && (#[trigger] entries[i]).credential_id@ == id
}

/// What evaluation decides for a query against the entries of a policy:
/// unknown credentials are refused first, then the one entry naming the
/// credential decides.
pub open spec fn policy_scope_outcome(
    entries: Seq<IssuerAuthorizationEntryV1>,
    query: IssuerAuthorizationQueryV1,
) -> Result<(), IssuerPolicyScopeDenyReasonV1> {
    if has_credential(entries, query.credential_id@) {
        let i = choose|i: int|
            0 <= i < entries.len() && (#[trigger] entries[i]).credential_id@ == query.credential_id@;
        entry_scope_outcome(entries[i], query)
    } else {
        Err(IssuerPolicyScopeDenyReasonV1::UnknownCredential)
    }
}

/// Proof only of exact scope membership of one query under one borrowed
/// locally trusted policy snapshot; not an issuer-authorized evidence type.
#[derive(Debug)]
pub struct IssuerPolicyScopeMatchV1<'a> {
    trusted_policy: &'a LocallyTrustedIssuerAuthorizationPolicyV1,
    query: IssuerAuthorizationQueryV1,
}

impl<'a> IssuerPolicyScopeMatchV1<'a> {
    pub closed spec fn spec_trusted_policy(self) -> LocallyTrustedIssuerAuthorizationPolicyV1 {
        *self.trusted_policy
    }

    pub closed spec fn spec_query(self) -> IssuerAuthorizationQueryV1 {
        self.query
    }

    pub fn query(&self) -> (r: IssuerAuthorizationQueryV1)
        ensures
            r == self.spec_query(),
    {
        self.query
    }

    pub fn trusted_policy(&self) -> (r: &'a LocallyTrustedIssuerAuthorizationPolicyV1)
        ensures
            *r == self.spec_trusted_policy(),
    {
        self.trusted_policy
    }

    pub fn canonical_policy_bytes(&self) -> (r: &[u8])
        ensures
            r@ == self.spec_trusted_policy().spec_canonical_policy_bytes(),
    {
        self.trusted_policy.canonical_policy_bytes()
    }

    pub fn policy_revision(&self) -> (r: u64)
        ensures
            r == self.spec_trusted_policy().spec_policy().spec_policy_revision(),
    {
        self.trusted_policy.policy().policy_revision()
    }
}

fn contains_u128(values: &[u128], x: u128) -> (r: bool)
    ensures
        r == values@.contains(x),
{
    let mut i: usize = 0;
    while i < values.len()
        invariant
            i <= values@.len(),
            forall|j: int| 0 <= j < i ==> values@[j] != x,
        decreases values@.len() - i,
    {
        if values[i] == x {
            assert(values@[i as int] == x);
            return true;
        }
        i = i + 1;
    }
    false
}

fn contains_claim_profile(values: &[IssuerClaimProfileV1], x: IssuerClaimProfileV1) -> (r: bool)
    ensures
        r == values@.contains(x),
{
    let mut i: usize = 0;
    while i < values.len()
        invariant
            i <= values@.len(),
            forall|j: int| 0 <= j < i ==> values@[j] != x,
        decreases values@.len() - i,
    {
        if values[i] == x {
            assert(values@[i as int] == x);
            return true;
        }
        i = i + 1;
    }
    false
}

fn contains_session_profile(values: &[IssuerSessionProfileV1], x: IssuerSessionProfileV1) -> (r:
    bool)
    ensures
        r == values@.contains(x),
{
    let mut i: usize = 0;
    while i < values.len()
        invariant
            i <= values@.len(),
            forall|j: int| 0 <= j < i ==> values@[j] != x,
        decreases values@.len() - i,
    {
        if values[i] == x {
            assert(values@[i as int] == x);
            return true;
        }
        i = i + 1;
    }
    false
}

fn contains_attestation_suite(values: &[IssuerAttestationSuiteV1], x: IssuerAttestationSuiteV1) -> (r:
    bool)
    ensures
        r == values@.contains(x),
{
    let mut i: usize = 0;
    while i < values.len()
        invariant
            i <= values@.len(),
            forall|j: int| 0 <= j < i ==> values@[j] != x,
        decreases values@.len() - i,
    {
        if values[i] == x {
            assert(values@[i as int] == x);
            return true;
        }
        i = i + 1;
    }
    false
}

fn contains_crypto_policy_profile(
    values: &[IssuerCryptoPolicyProfileV1],
    x: IssuerCryptoPolicyProfileV1,
) -> (r: bool)
    ensures
        r == values@.contains(x),
{
    let mut i: usize = 0;
    while i < values.len()
        invariant
            i <= values@.len(),
            forall|j: int| 0 <= j < i ==> values@[j] != x,
        decreases values@.len() - i,
    {
        if values[i] == x {
            assert(values@[i as int] == x);
            return true;
        }
        i = i + 1;
    }
    false
}

/// Index of the entry naming credential `id`, if any.
fn find_credential(entries: &[IssuerAuthorizationEntryV1], id: &[u8; ISSUER_CREDENTIAL_ID_LEN]) -> (r:
    Option<usize>)
    ensures
        r is None <==> !has_credential(entries@, id@),
        r matches Some(i) ==> i < entries@.len() && entries@[i as int].credential_id@ == id@,
{
    let mut i: usize = 0;
    while i < entries.len()
        invariant
            i <= entries@.len(),
            forall|j: int| 0 <= j < i ==> (#[trigger] entries@[j]).credential_id@ != id@,
        decreases entries@.len() - i,
    {
        if bytes_equal(entries[i].credential_id.as_slice(), id.as_slice()) {
            return Some(i);
        }
        i = i + 1;
    }
    None
}

/// Evaluate one plain query against one exact locally trusted policy
/// snapshot. Evaluation order is stable and fail-closed; success establishes
/// only policy scope membership of the supplied field values.
pub fn evaluate_issuer_policy_scope_v1<'a>(
    trusted_policy: &'a LocallyTrustedIssuerAuthorizationPolicyV1,
    query: &IssuerAuthorizationQueryV1,
) -> (res: Result<IssuerPolicyScopeMatchV1<'a>, IssuerPolicyScopeDenyReasonV1>)
    ensures
        match res {
            Ok(m) => policy_scope_outcome(
                trusted_policy.spec_policy().spec_entries(),
                *query,
            ) == Ok::<(), IssuerPolicyScopeDenyReasonV1>(()) && m.spec_trusted_policy()
                == *trusted_policy && m.spec_query() == *query,
            Err(e) => policy_scope_outcome(trusted_policy.spec_policy().spec_entries(), *query)
                == Err::<(), IssuerPolicyScopeDenyReasonV1>(e),
        },
{
    let entries = trusted_policy.policy().entries();
    let index = match find_credential(entries, &query.credential_id) {
        Some(i) => i,
        None => return Err(IssuerPolicyScopeDenyReasonV1::UnknownCredential),
    };
    let entry = &entries[index];
    proof {
        let k = choose|k: int|
            0 <= k < entries@.len() && (#[trigger] entries@[k]).credential_id@ == query.credential_id@;
        assert(credentials_distinct(entries@));
        if k != index as int {
            assert(entries@[k].credential_id@ != entries@[index as int].credential_id@);
        }
        assert(policy_scope_outcome(entries@, *query) == entry_scope_outcome(*entry, *query));
    }
    match entry.status {
        IssuerCredentialStatusV1::Active => {},
        IssuerCredentialStatusV1::Disabled => {
            return Err(IssuerPolicyScopeDenyReasonV1::CredentialDisabled);
        },
        IssuerCredentialStatusV1::RevokedCompromised => {
            return Err(IssuerPolicyScopeDenyReasonV1::CredentialRevokedCompromised);
        },
    }
    if query.physical_authority_id == 0 {
        return Err(IssuerPolicyScopeDenyReasonV1::ZeroPhysicalAuthorityId);
    }
    if !contains_u128(entry.physical_authority_ids.as_slice(), query.physical_authority_id) {
        return Err(IssuerPolicyScopeDenyReasonV1::PhysicalAuthorityNotAllowed);
    }
    if !contains_claim_profile(entry.claim_profiles.as_slice(), query.claim_profile) {
        return Err(IssuerPolicyScopeDenyReasonV1::ClaimProfileNotAllowed);
    }
    if !contains_session_profile(entry.session_profiles.as_slice(), query.session_profile) {
        return Err(IssuerPolicyScopeDenyReasonV1::SessionProfileNotAllowed);
    }
    if !contains_attestation_suite(entry.attestation_suites.as_slice(), query.attestation_suite) {
        return Err(IssuerPolicyScopeDenyReasonV1::AttestationSuiteNotAllowed);
    }
    if !contains_crypto_policy_profile(
        entry.crypto_policy_profiles.as_slice(),
        query.crypto_policy_profile,
    ) {
        return Err(IssuerPolicyScopeDenyReasonV1::CryptoPolicyProfileNotAllowed);
    }
    Ok(IssuerPolicyScopeMatchV1 { trusted_policy, query: *query })
}

/// Evaluation reads the policy entries alone: two trusted snapshots with the
/// same entries decide every query alike, whatever their revisions or bytes.
pub proof fn lemma_scope_depends_only_on_entries(
    a: LocallyTrustedIssuerAuthorizationPolicyV1,
    b: LocallyTrustedIssuerAuthorizationPolicyV1,
    query: IssuerAuthorizationQueryV1,
)
    requires
        a.spec_policy().spec_entries() == b.spec_policy().spec_entries(),
    ensures
        policy_scope_outcome(a.spec_policy().spec_entries(), query) == policy_scope_outcome(
            b.spec_policy().spec_entries(),
            query,
        ),
{
}

/// An admitted query names an active credential of the policy, a non-zero
/// physical authority, and only values within that credential's scope.
pub proof fn lemma_admitted_query_is_in_scope(
    entries: Seq<IssuerAuthorizationEntryV1>,
    query: IssuerAuthorizationQueryV1,
)
    requires
        policy_scope_outcome(entries, query) is Ok,
    ensures
        exists|i: int|
            0 <= i < entries.len() && (#[trigger] entries[i]).credential_id@ == query.credential_id@
                && entries[i].status == IssuerCredentialStatusV1::Active
                && query.physical_authority_id != 0
                && entries[i].physical_authority_ids@.contains(query.physical_authority_id)
                && entries[i].claim_profiles@.contains(query.claim_profile)
                && entries[i].session_profiles@.contains(query.session_profile)
                && entries[i].attestation_suites@.contains(query.attestation_suite)
                && entries[i].crypto_policy_profiles@.contains(query.crypto_policy_profile),
{
    let i = choose|i: int|
        0 <= i < entries.len() && (#[trigger] entries[i]).credential_id@ == query.credential_id@;
    assert(entries[i].status == IssuerCredentialStatusV1::Active);
}

/// Completeness of scope evaluation: in a policy whose credentials are
/// distinct, a query naming an active credential, a non-zero physical
/// authority, and values each found anywhere in that credential's lists is
/// admitted.
pub proof fn lemma_in_scope_query_is_admitted(
    entries: Seq<IssuerAuthorizationEntryV1>,
    query: IssuerAuthorizationQueryV1,
    i: int,
)
    requires
        credentials_distinct(entries),
        0 <= i < entries.len(),
        entries[i].credential_id@ == query.credential_id@,
        entries[i].status == IssuerCredentialStatusV1::Active,
        query.physical_authority_id != 0,
        entries[i].physical_authority_ids@.contains(query.physical_authority_id),
        entries[i].claim_profiles@.contains(query.claim_profile),
        entries[i].session_profiles@.contains(query.session_profile),
        entries[i].attestation_suites@.contains(query.attestation_suite),
        entries[i].crypto_policy_profiles@.contains(query.crypto_policy_profile),
    ensures
        policy_scope_outcome(entries, query) is Ok,
{
    assert(has_credential(entries, query.credential_id@));
    let k = choose|k: int|
        0 <= k < entries.len() && (#[trigger] entries[k]).credential_id@ == query.credential_id@;
    if k != i {
        assert(entries[k].credential_id@ != entries[i].credential_id@);
    }
}

/// Why a query is refused, each reason tied to the fact it reports, checked
/// in this order: no entry names the credential; the credential is disabled;
/// it is revoked as compromised; the physical authority is zero; then the
/// first of authority, claim profile, session profile, attestation suite and
/// crypto-policy profile that the credential's lists do not contain.
pub proof fn lemma_refusal_reasons(
    entries: Seq<IssuerAuthorizationEntryV1>,
    query: IssuerAuthorizationQueryV1,
    i: int,
)
    requires
        credentials_distinct(entries),
        0 <= i < entries.len(),
        entries[i].credential_id@ == query.credential_id@,
    ensures
        ({
            let e = entries[i];
            let r = policy_scope_outcome(entries, query);
            &&& e.status == IssuerCredentialStatusV1::Disabled ==> r == Err::<(), IssuerPolicyScopeDenyReasonV1>(
                IssuerPolicyScopeDenyReasonV1::CredentialDisabled,
            )
            &&& e.status == IssuerCredentialStatusV1::RevokedCompromised ==> r == Err::<
                (),
                IssuerPolicyScopeDenyReasonV1,
            >(IssuerPolicyScopeDenyReasonV1::CredentialRevokedCompromised)
            &&& e.status == IssuerCredentialStatusV1::Active ==> {
                &&& query.physical_authority_id == 0 ==> r == Err::<(), IssuerPolicyScopeDenyReasonV1>(
                    IssuerPolicyScopeDenyReasonV1::ZeroPhysicalAuthorityId,
                )
                &&& query.physical_authority_id != 0 && !e.physical_authority_ids@.contains(
                    query.physical_authority_id,
                ) ==> r == Err::<(), IssuerPolicyScopeDenyReasonV1>(
                    IssuerPolicyScopeDenyReasonV1::PhysicalAuthorityNotAllowed,
                )
                &&& query.physical_authority_id != 0 && e.physical_authority_ids@.contains(
                    query.physical_authority_id,
                ) && !e.claim_profiles@.contains(query.claim_profile) ==> r == Err::<
                    (),
                    IssuerPolicyScopeDenyReasonV1,
                >(IssuerPolicyScopeDenyReasonV1::ClaimProfileNotAllowed)
                &&& query.physical_authority_id != 0 && e.physical_authority_ids@.contains(
                    query.physical_authority_id,
                ) && e.claim_profiles@.contains(query.claim_profile)
                    && !e.session_profiles@.contains(query.session_profile) ==> r == Err::<
                    (),
                    IssuerPolicyScopeDenyReasonV1,
                >(IssuerPolicyScopeDenyReasonV1::SessionProfileNotAllowed)
                &&& query.physical_authority_id != 0 && e.physical_authority_ids@.contains(
                    query.physical_authority_id,
                ) && e.claim_profiles@.contains(query.claim_profile)
                    && e.session_profiles@.contains(query.session_profile)
                    && !e.attestation_suites@.contains(query.attestation_suite) ==> r == Err::<
                    (),
                    IssuerPolicyScopeDenyReasonV1,
                >(IssuerPolicyScopeDenyReasonV1::AttestationSuiteNotAllowed)
                &&& query.physical_authority_id != 0 && e.physical_authority_ids@.contains(
                    query.physical_authority_id,
                ) && e.claim_profiles@.contains(query.claim_profile)
                    && e.session_profiles@.contains(query.session_profile)
                    && e.attestation_suites@.contains(query.attestation_suite)
                    && !e.crypto_policy_profiles@.contains(query.crypto_policy_profile) ==> r
                    == Err::<(), IssuerPolicyScopeDenyReasonV1>(
                    IssuerPolicyScopeDenyReasonV1::CryptoPolicyProfileNotAllowed,
                )
            }
        }),
{
    assert(has_credential(entries, query.credential_id@));
    let k = choose|k: int|
        0 <= k < entries.len() && (#[trigger] entries[k]).credential_id@ == query.credential_id@;
    if k != i {
        assert(entries[k].credential_id@ != entries[i].credential_id@);
    }
}

/// A credential that no entry names is refused as unknown.
pub proof fn lemma_unknown_credential_refused(
    entries: Seq<IssuerAuthorizationEntryV1>,
    query: IssuerAuthorizationQueryV1,
)
    requires
        forall|i: int| 0 <= i < entries.len() ==> (#[trigger] entries[i]).credential_id@
            != query.credential_id@,
    ensures
        policy_scope_outcome(entries, query) == Err::<(), IssuerPolicyScopeDenyReasonV1>(
            IssuerPolicyScopeDenyReasonV1::UnknownCredential,
        ),
{
}

} // verus!
