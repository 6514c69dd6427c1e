//! Canonical semantic-claim commitment preimages.
//!
//! These are only the bytes a future cryptographic digest will commit to. No
//! hash algorithm is selected or invoked, and no authenticated evidence or
//! action authority is created.
use crate::be_bytes::{be_u32, be_u64, lemma_be_u64, push_be_u32, push_be_u64, push_bytes};
use crate::consecutive_claim_identity::CanonicalConsecutivePresenceClaimV1;
use crate::endpoint_claim_identity::CanonicalEndpointSampleClaimV1;
use vstd::prelude::*;

verus! {

/// `symtropy-physics-semantic-commitment\0`: the application namespace of the preimages.
pub const SEMANTIC_COMMITMENT_PREIMAGE_V1_MAGIC: [u8; 37] = [
    0x73, 0x79, 0x6d, 0x74, 0x72, 0x6f, 0x70, 0x79, 0x2d, 0x70, 0x68, 0x79, 0x73, 0x69, 0x63, 0x73,
    0x2d, 0x73, 0x65, 0x6d, 0x61, 0x6e, 0x74, 0x69, 0x63, 0x2d, 0x63, 0x6f, 0x6d, 0x6d, 0x69, 0x74,
    0x6d, 0x65, 0x6e, 0x74, 0x00,
];

/// `position-v1\0`: domain of position-only commitments.
pub const SEMANTIC_COMMITMENT_POSITION_V1_DOMAIN: [u8; 12] = [
    0x70, 0x6f, 0x73, 0x69, 0x74, 0x69, 0x6f, 0x6e, 0x2d, 0x76, 0x31, 0x00,
];

/// `full-claim-v1\0`: domain of full position+value commitments.
pub const SEMANTIC_COMMITMENT_FULL_CLAIM_V1_DOMAIN: [u8; 14] = [
    0x66, 0x75, 0x6c, 0x6c, 0x2d, 0x63, 0x6c, 0x61, 0x69, 0x6d, 0x2d, 0x76, 0x31, 0x00,
];

/// Exact preimage grammar version.
pub const SEMANTIC_COMMITMENT_PREIMAGE_V1_VERSION: u32 = 1;

/// `endpoint-sample-v1`
pub const ENDPOINT_SAMPLE_PROFILE_DOMAIN: [u8; 18] = [
    0x65, 0x6e, 0x64, 0x70, 0x6f, 0x69, 0x6e, 0x74, 0x2d, 0x73, 0x61, 0x6d, 0x70, 0x6c, 0x65, 0x2d,
    0x76, 0x31,
];

/// `consecutive-presence-v1`
pub const CONSECUTIVE_PRESENCE_PROFILE_DOMAIN: [u8; 23] = [
    0x63, 0x6f, 0x6e, 0x73, 0x65, 0x63, 0x75, 0x74, 0x69, 0x76, 0x65, 0x2d, 0x70, 0x72, 0x65, 0x73,
    0x65, 0x6e, 0x63, 0x65, 0x2d, 0x76, 0x31,
];

/// Closed registry of the semantic claim profiles that preimages are made for.
#[derive(Copy, Clone, Debug, PartialEq, Eq, Structural)]
pub enum SemanticClaimProfileV1 {
    EndpointSample,
    ConsecutivePresence,
}

impl SemanticClaimProfileV1 {
    pub open spec fn spec_domain_bytes(self) -> Seq<u8> {
        match self {
            SemanticClaimProfileV1::EndpointSample => ENDPOINT_SAMPLE_PROFILE_DOMAIN@,
            SemanticClaimProfileV1::ConsecutivePresence => CONSECUTIVE_PRESENCE_PROFILE_DOMAIN@,
        }
    }

    pub fn domain_bytes(self) -> (r: &'static [u8])
        ensures
            r@ == self.spec_domain_bytes(),
    {
        match self {
            SemanticClaimProfileV1::EndpointSample => &ENDPOINT_SAMPLE_PROFILE_DOMAIN,
            SemanticClaimProfileV1::ConsecutivePresence => &CONSECUTIVE_PRESENCE_PROFILE_DOMAIN,
        }
    }
}

/// Position preimage: namespace, position domain, profile domain, NUL, version,
/// then the position transcript preceded by its big-endian `u64` length.
pub open spec fn position_preimage_v1(profile: SemanticClaimProfileV1, position: Seq<u8>) -> Seq<
    u8,
> {
    SEMANTIC_COMMITMENT_PREIMAGE_V1_MAGIC@ + SEMANTIC_COMMITMENT_POSITION_V1_DOMAIN@
        + profile.spec_domain_bytes() + seq![0u8] + be_u32(SEMANTIC_COMMITMENT_PREIMAGE_V1_VERSION)
        + be_u64(position.len() as u64) + position
}

/// Full-claim preimage: namespace, full-claim domain, profile domain, NUL,
/// version, then the position and the value transcripts, each preceded by its
/// big-endian `u64` length.
pub open spec fn full_claim_preimage_v1(
    profile: SemanticClaimProfileV1,
    position: Seq<u8>,
    value: Seq<u8>,
) -> Seq<u8> {
    SEMANTIC_COMMITMENT_PREIMAGE_V1_MAGIC@ + SEMANTIC_COMMITMENT_FULL_CLAIM_V1_DOMAIN@
        + profile.spec_domain_bytes() + seq![0u8] + be_u32(SEMANTIC_COMMITMENT_PREIMAGE_V1_VERSION)
        + be_u64(position.len() as u64) + position + be_u64(value.len() as u64) + value
}

/// Canonical preimage bytes for one already-admitted semantic claim. These are
/// representation only: not digests, signatures, evidence or authorization.
#[derive(Clone, Debug, PartialEq, Eq)]
pub struct SemanticClaimCommitmentPreimagesV1 {
    profile: SemanticClaimProfileV1,
    position_preimage: Vec<u8>,
    full_claim_preimage: Vec<u8>,
}

/// Profile, position preimage and full-claim preimage as plain values.
pub struct PreimagesModelV1 {
    pub profile: SemanticClaimProfileV1,
    pub position_preimage: Seq<u8>,
    pub full_claim_preimage: Seq<u8>,
}

impl View for SemanticClaimCommitmentPreimagesV1 {
    type V = PreimagesModelV1;

    closed spec fn view(&self) -> PreimagesModelV1 {
        PreimagesModelV1 {
            profile: self.profile,
            position_preimage: self.position_preimage@,
            full_claim_preimage: self.full_claim_preimage@,
        }
    }
}

impl SemanticClaimCommitmentPreimagesV1 {
    pub fn profile(&self) -> (r: SemanticClaimProfileV1)
        ensures
            r == self@.profile,
    {
        self.profile
    }

    pub fn position_preimage(&self) -> (r: &[u8])
        ensures
            r@ == self@.position_preimage,
    {
        self.position_preimage.as_slice()
    }

    pub fn full_claim_preimage(&self) -> (r: &[u8])
        ensures
            r@ == self@.full_claim_preimage,
    {
        self.full_claim_preimage.as_slice()
    }
}

#[derive(Copy, Clone, Debug, PartialEq, Eq, Structural)]
pub enum SemanticCommitmentPreimageV1Error {
    TranscriptLengthOverflow,
    PreimageLengthOverflow,
}

/// What building the preimages of one claim yields.
pub open spec fn preimages_outcome(
    profile: SemanticClaimProfileV1,
    position: Seq<u8>,
    value: Seq<u8>,
) -> Result<PreimagesModelV1, SemanticCommitmentPreimageV1Error> {
    let prefix = SEMANTIC_COMMITMENT_PREIMAGE_V1_MAGIC@.len() + profile.spec_domain_bytes().len()
        + 13;
    if position.len() > u64::MAX || value.len() > u64::MAX {
        Err(SemanticCommitmentPreimageV1Error::TranscriptLengthOverflow)
    } else if prefix + SEMANTIC_COMMITMENT_FULL_CLAIM_V1_DOMAIN@.len() + position.len() + 8
        + value.len() > usize::MAX {
        Err(SemanticCommitmentPreimageV1Error::PreimageLengthOverflow)
    } else {
        Ok(
            PreimagesModelV1 {
                profile,
                position_preimage: position_preimage_v1(profile, position),
                full_claim_preimage: full_claim_preimage_v1(profile, position, value),
            },
        )
    }
}

/// Builds the position and full-claim preimages of one claim.
pub fn build_preimages_v1(profile: SemanticClaimProfileV1, position: &[u8], value: &[u8]) -> (res:
    Result<SemanticClaimCommitmentPreimagesV1, SemanticCommitmentPreimageV1Error>)
    ensures
        match res {
            Ok(p) => preimages_outcome(profile, position@, value@) == Ok::<
                PreimagesModelV1,
                SemanticCommitmentPreimageV1Error,
            >(p@),
            Err(e) => preimages_outcome(profile, position@, value@) == Err::<
                PreimagesModelV1,
                SemanticCommitmentPreimageV1Error,
            >(e),
        },
{
    let position_len = position.len() as u64;
    let value_len = value.len() as u64;
    let profile_domain = profile.domain_bytes();
    let common_prefix_len = SEMANTIC_COMMITMENT_PREIMAGE_V1_MAGIC.len() + profile_domain.len() + 13;
    if position.len() > usize::MAX - common_prefix_len - SEMANTIC_COMMITMENT_FULL_CLAIM_V1_DOMAIN.len()
        - 8 || value.len() > usize::MAX - common_prefix_len
        - SEMANTIC_COMMITMENT_FULL_CLAIM_V1_DOMAIN.len() - 8 - position.len() {
        return Err(SemanticCommitmentPreimageV1Error::PreimageLengthOverflow);
    }
    let position_capacity = common_prefix_len + SEMANTIC_COMMITMENT_POSITION_V1_DOMAIN.len()
        + position.len();
    let full_capacity = common_prefix_len + SEMANTIC_COMMITMENT_FULL_CLAIM_V1_DOMAIN.len()
        + position.len() + 8 + value.len();

    let mut position_preimage: Vec<u8> = Vec::with_capacity(position_capacity);
    push_bytes(&mut position_preimage, &SEMANTIC_COMMITMENT_PREIMAGE_V1_MAGIC);
    push_bytes(&mut position_preimage, &SEMANTIC_COMMITMENT_POSITION_V1_DOMAIN);
    push_bytes(&mut position_preimage, profile_domain);
    position_preimage.push(0);
    push_be_u32(&mut position_preimage, SEMANTIC_COMMITMENT_PREIMAGE_V1_VERSION);
    push_be_u64(&mut position_preimage, position_len);
    push_bytes(&mut position_preimage, position);

    let mut full_claim_preimage: Vec<u8> = Vec::with_capacity(full_capacity);
    push_bytes(&mut full_claim_preimage, &SEMANTIC_COMMITMENT_PREIMAGE_V1_MAGIC);
    push_bytes(&mut full_claim_preimage, &SEMANTIC_COMMITMENT_FULL_CLAIM_V1_DOMAIN);
    push_bytes(&mut full_claim_preimage, profile_domain);
    full_claim_preimage.push(0);
    push_be_u32(&mut full_claim_preimage, SEMANTIC_COMMITMENT_PREIMAGE_V1_VERSION);
    push_be_u64(&mut full_claim_preimage, position_len);
    push_bytes(&mut full_claim_preimage, position);
    push_be_u64(&mut full_claim_preimage, value_len);
    push_bytes(&mut full_claim_preimage, value);

    assert(position_preimage@ =~= position_preimage_v1(profile, position@));
    assert(full_claim_preimage@ =~= full_claim_preimage_v1(profile, position@, value@));
    Ok(SemanticClaimCommitmentPreimagesV1 { profile, position_preimage, full_claim_preimage })
}

/// Derives commitment preimages from one typed endpoint claim.
pub fn endpoint_sample_commitment_preimages_v1(claim: &CanonicalEndpointSampleClaimV1) -> (res:
    Result<SemanticClaimCommitmentPreimagesV1, SemanticCommitmentPreimageV1Error>)
    ensures
        match res {
            Ok(p) => preimages_outcome(SemanticClaimProfileV1::EndpointSample, claim@.0, claim@.1)
                == Ok::<PreimagesModelV1, SemanticCommitmentPreimageV1Error>(p@),
            Err(e) => preimages_outcome(SemanticClaimProfileV1::EndpointSample, claim@.0, claim@.1)
                == Err::<PreimagesModelV1, SemanticCommitmentPreimageV1Error>(e),
        },
{
    build_preimages_v1(
        SemanticClaimProfileV1::EndpointSample,
        claim.position().as_bytes(),
        claim.value().as_bytes(),
    )
}

/// Derives commitment preimages from one typed consecutive-presence claim.
pub fn consecutive_presence_commitment_preimages_v1(
    claim: &CanonicalConsecutivePresenceClaimV1,
) -> (res: Result<SemanticClaimCommitmentPreimagesV1, SemanticCommitmentPreimageV1Error>)
    ensures
        match res {
            Ok(p) => preimages_outcome(
                SemanticClaimProfileV1::ConsecutivePresence,
                claim@.0,
                claim@.1,
            ) == Ok::<PreimagesModelV1, SemanticCommitmentPreimageV1Error>(p@),
            Err(e) => preimages_outcome(
                SemanticClaimProfileV1::ConsecutivePresence,
                claim@.0,
                claim@.1,
            ) == Err::<PreimagesModelV1, SemanticCommitmentPreimageV1Error>(e),
        },
{
    build_preimages_v1(
        SemanticClaimProfileV1::ConsecutivePresence,
        claim.position().as_bytes(),
        claim.value().as_bytes(),
    )
}

/// Different profiles never share a preimage, whatever the transcripts: the
/// profile domain separates otherwise identical claims.
pub proof fn lemma_profile_domain_separates(
    position_a: Seq<u8>,
    value_a: Seq<u8>,
    position_b: Seq<u8>,
    value_b: Seq<u8>,
)
    ensures
        position_preimage_v1(SemanticClaimProfileV1::EndpointSample, position_a)
            != position_preimage_v1(SemanticClaimProfileV1::ConsecutivePresence, position_b),
        full_claim_preimage_v1(SemanticClaimProfileV1::EndpointSample, position_a, value_a)
            != full_claim_preimage_v1(
            SemanticClaimProfileV1::ConsecutivePresence,
            position_b,
            value_b,
        ),
{
    let e = position_preimage_v1(SemanticClaimProfileV1::EndpointSample, position_a);
    let c = position_preimage_v1(SemanticClaimProfileV1::ConsecutivePresence, position_b);
    assert(e[49] == 0x65u8 && c[49] == 0x63u8);
    let fe = full_claim_preimage_v1(SemanticClaimProfileV1::EndpointSample, position_a, value_a);
    let fc = full_claim_preimage_v1(
        SemanticClaimProfileV1::ConsecutivePresence,
        position_b,
        value_b,
    );
    assert(fe[51] == 0x65u8 && fc[51] == 0x63u8);
}

/// A position preimage is never a full-claim preimage: the two domains differ.
pub proof fn lemma_position_and_full_claim_domains_distinct(
    profile_a: SemanticClaimProfileV1,
    position_a: Seq<u8>,
    profile_b: SemanticClaimProfileV1,
    position_b: Seq<u8>,
    value_b: Seq<u8>,
)
    ensures
        position_preimage_v1(profile_a, position_a) != full_claim_preimage_v1(
            profile_b,
            position_b,
            value_b,
        ),
{
    let p = position_preimage_v1(profile_a, position_a);
    let f = full_claim_preimage_v1(profile_b, position_b, value_b);
    assert(p[37] == 0x70u8 && f[37] == 0x66u8);
}

/// Every preimage starts with the application namespace.
pub proof fn lemma_preimages_start_with_namespace(
    profile: SemanticClaimProfileV1,
    position: Seq<u8>,
    value: Seq<u8>,
)
    ensures
        position_preimage_v1(profile, position).subrange(0, 37)
            == SEMANTIC_COMMITMENT_PREIMAGE_V1_MAGIC@,
        full_claim_preimage_v1(profile, position, value).subrange(0, 37)
            == SEMANTIC_COMMITMENT_PREIMAGE_V1_MAGIC@,
{
    assert(position_preimage_v1(profile, position).subrange(0, 37)
        =~= SEMANTIC_COMMITMENT_PREIMAGE_V1_MAGIC@);
    assert(full_claim_preimage_v1(profile, position, value).subrange(0, 37)
        =~= SEMANTIC_COMMITMENT_PREIMAGE_V1_MAGIC@);
}

/// A position preimage determines its profile and its position transcript.
pub proof fn lemma_position_preimage_injective(
    profile_a: SemanticClaimProfileV1,
    position_a: Seq<u8>,
    profile_b: SemanticClaimProfileV1,
    position_b: Seq<u8>,
)
    requires
        position_a.len() <= u64::MAX,
        position_b.len() <= u64::MAX,
        position_preimage_v1(profile_a, position_a) == position_preimage_v1(profile_b, position_b),
    ensures
        profile_a == profile_b,
        position_a == position_b,
{
    if profile_a != profile_b {
        match profile_a {
            SemanticClaimProfileV1::EndpointSample => lemma_profile_domain_separates(
                position_a,
                Seq::empty(),
                position_b,
                Seq::empty(),
            ),
            SemanticClaimProfileV1::ConsecutivePresence => lemma_profile_domain_separates(
                position_b,
                Seq::empty(),
                position_a,
                Seq::empty(),
            ),
        }
    }
    let pre = SEMANTIC_COMMITMENT_PREIMAGE_V1_MAGIC@ + SEMANTIC_COMMITMENT_POSITION_V1_DOMAIN@
        + profile_a.spec_domain_bytes() + seq![0u8] + be_u32(SEMANTIC_COMMITMENT_PREIMAGE_V1_VERSION)
        + be_u64(position_a.len() as u64);
    let pre_b = SEMANTIC_COMMITMENT_PREIMAGE_V1_MAGIC@ + SEMANTIC_COMMITMENT_POSITION_V1_DOMAIN@
        + profile_b.spec_domain_bytes() + seq![0u8] + be_u32(SEMANTIC_COMMITMENT_PREIMAGE_V1_VERSION)
        + be_u64(position_b.len() as u64);
    lemma_be_u64(position_a.len() as u64);
    lemma_be_u64(position_b.len() as u64);
    let whole = position_preimage_v1(profile_a, position_a);
    assert(whole == pre + position_a);
    assert(whole == pre_b + position_b);
    assert(pre.len() == pre_b.len());
    assert(position_a =~= whole.subrange(pre.len() as int, whole.len() as int));
    assert(position_b =~= whole.subrange(pre_b.len() as int, whole.len() as int));
}

/// A full-claim preimage determines its profile, position and value transcripts.
pub proof fn lemma_full_claim_preimage_injective(
    profile_a: SemanticClaimProfileV1,
    position_a: Seq<u8>,
    value_a: Seq<u8>,
    profile_b: SemanticClaimProfileV1,
    position_b: Seq<u8>,
    value_b: Seq<u8>,
)
    requires
        position_a.len() <= u64::MAX,
        position_b.len() <= u64::MAX,
        value_a.len() <= u64::MAX,
        value_b.len() <= u64::MAX,
        full_claim_preimage_v1(profile_a, position_a, value_a) == full_claim_preimage_v1(
            profile_b,
            position_b,
            value_b,
        ),
    ensures
        profile_a == profile_b,
        position_a == position_b,
        value_a == value_b,
{
    if profile_a != profile_b {
        match profile_a {
            SemanticClaimProfileV1::EndpointSample => lemma_profile_domain_separates(
                position_a,
                value_a,
                position_b,
                value_b,
            ),
            SemanticClaimProfileV1::ConsecutivePresence => lemma_profile_domain_separates(
                position_b,
                value_b,
                position_a,
                value_a,
            ),
        }
    }
    let head = SEMANTIC_COMMITMENT_PREIMAGE_V1_MAGIC@ + SEMANTIC_COMMITMENT_FULL_CLAIM_V1_DOMAIN@
        + profile_a.spec_domain_bytes() + seq![0u8] + be_u32(SEMANTIC_COMMITMENT_PREIMAGE_V1_VERSION);
    let h = head.len() as int;
    let whole = full_claim_preimage_v1(profile_a, position_a, value_a);
    lemma_be_u64(position_a.len() as u64);
    lemma_be_u64(position_b.len() as u64);
    lemma_be_u64(value_a.len() as u64);
    lemma_be_u64(value_b.len() as u64);
    assert(whole == head + be_u64(position_a.len() as u64) + position_a + be_u64(
        value_a.len() as u64,
    ) + value_a);
    assert(whole == head + be_u64(position_b.len() as u64) + position_b + be_u64(
        value_b.len() as u64,
    ) + value_b);
    assert(whole.subrange(h, h + 8) =~= be_u64(position_a.len() as u64));
    assert(whole.subrange(h, h + 8) =~= be_u64(position_b.len() as u64));
    assert(position_a.len() == position_b.len());
    let pe = h + 8 + position_a.len();
    assert(whole.subrange(h + 8, pe) =~= position_a);
    assert(whole.subrange(h + 8, pe) =~= position_b);
    assert(whole.subrange(pe, pe + 8) =~= be_u64(value_a.len() as u64));
    assert(whole.subrange(pe, pe + 8) =~= be_u64(value_b.len() as u64));
    assert(whole.subrange(pe + 8, whole.len() as int) =~= value_a);
    assert(whole.subrange(pe + 8, whole.len() as int) =~= value_b);
}

} // verus!
