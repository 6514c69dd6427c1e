//! Canonical semantic claim identity for persistent endpoint samples.
//!
//! The unique semantic sample position is kept apart from the value asserted
//! at that position. Both transcripts are derived only from an admitted
//! endpoint sample. They are language-neutral representation records, not
//! cryptographic commitments or authenticated authority.
use crate::be_bytes::{
    be_u128, be_u16, be_u32, be_u64, bytes_equal, lemma_be_u128, lemma_be_u16, lemma_be_u32,
    lemma_be_u64, push_be_u128, push_be_u16, push_be_u32,
    push_be_u64, push_bytes,
};
use crate::endpoint_sample_codec::{
    array_word, be_u64_words, lemma_be_u64_words, decode_endpoint_sample_v1, endpoint_input_consistent,
    endpoint_input_outcome, CanonicalEndpointMembershipV1, DecodedEndpointSampleV1,
    EndpointSampleCodecV1Error, EndpointSampleFrameV1, EndpointSampleModelV1,
    ANCHOR_TRANSLATION_GROUP, CENTER_OFFSET_GROUP, HALF_EXTENTS_GROUP, OFFSET_FROM_CENTER_GROUP,
    REGION_CENTER_GROUP, TARGET_TRANSLATION_GROUP,
};
use vstd::prelude::*;

verus! {

/// `symtropy-physics-claim-position\0`
pub const ENDPOINT_SAMPLE_CLAIM_POSITION_V1_MAGIC: [u8; 32] = [
    0x73, 0x79, 0x6d, 0x74, 0x72, 0x6f, 0x70, 0x79, 0x2d, 0x70, 0x68, 0x79, 0x73, 0x69, 0x63, 0x73,
    0x2d, 0x63, 0x6c, 0x61, 0x69, 0x6d, 0x2d, 0x70, 0x6f, 0x73, 0x69, 0x74, 0x69, 0x6f, 0x6e, 0x00,
];

/// `symtropy-physics-claim-value\0`
pub const ENDPOINT_SAMPLE_CLAIM_VALUE_V1_MAGIC: [u8; 29] = [
    0x73, 0x79, 0x6d, 0x74, 0x72, 0x6f, 0x70, 0x79, 0x2d, 0x70, 0x68, 0x79, 0x73, 0x69, 0x63, 0x73,
    0x2d, 0x63, 0x6c, 0x61, 0x69, 0x6d, 0x2d, 0x76, 0x61, 0x6c, 0x75, 0x65, 0x00,
];

/// `endpoint-sample-v1\0`
pub const ENDPOINT_SAMPLE_CLAIM_V1_DOMAIN: [u8; 19] = [
    0x65, 0x6e, 0x64, 0x70, 0x6f, 0x69, 0x6e, 0x74, 0x2d, 0x73, 0x61, 0x6d, 0x70, 0x6c, 0x65, 0x2d,
    0x76, 0x31, 0x00,
];

pub const ENDPOINT_SAMPLE_CLAIM_TRANSCRIPT_V1_VERSION: u32 = 1;

pub const POSITION_FIXED_V1_LEN: usize = 157;

pub const POSITION_PER_AXIS_V1_LEN: usize = 16;

pub const VALUE_FIXED_V1_LEN: usize = 55;

pub const VALUE_PER_AXIS_V1_LEN: usize = 32;

/// The values of array `group` of an admitted sample, axis by axis.
pub open spec fn group_values(m: EndpointSampleModelV1, group: int) -> Seq<u64> {
    Seq::new(m.dimension as nat, |a: int| array_word(m.payload, m.dimension as int, group, a))
}

/// Position transcript: which proposition at which qualified sample coordinate
/// is asserted. Session, step, target, anchor and the region's center offset
/// and half extents; never membership or observed/derived geometry.
pub open spec fn endpoint_claim_position_v1(m: EndpointSampleModelV1) -> Seq<u8> {
    ENDPOINT_SAMPLE_CLAIM_POSITION_V1_MAGIC@ + ENDPOINT_SAMPLE_CLAIM_V1_DOMAIN@ + be_u32(
        ENDPOINT_SAMPLE_CLAIM_TRANSCRIPT_V1_VERSION,
    ) + be_u16(m.dimension) + m.session.session_id + be_u128(m.session.physical_authority)
        + be_u128(m.session.world_generation) + be_u64(m.session.temporal_incarnation) + be_u32(
        m.session.profile_code,
    ) + be_u64(m.step_index) + be_u64(m.target_net_id) + be_u64(m.anchor_net_id)
        + be_u64_words(group_values(m, CENTER_OFFSET_GROUP as int)) + be_u64_words(
        group_values(m, HALF_EXTENTS_GROUP as int),
    )
}

/// The opening of every position transcript: magic, domain, transcript
/// version and the sample's dimension.
pub open spec fn endpoint_claim_position_prefix_v1(dimension: u16) -> Seq<u8> {
    ENDPOINT_SAMPLE_CLAIM_POSITION_V1_MAGIC@ + ENDPOINT_SAMPLE_CLAIM_V1_DOMAIN@ + be_u32(
        ENDPOINT_SAMPLE_CLAIM_TRANSCRIPT_V1_VERSION,
    ) + be_u16(dimension)
}

/// Value transcript: membership, observed target and anchor translations, and
/// the derived region center and offset from center.
pub open spec fn endpoint_claim_value_v1(m: EndpointSampleModelV1) -> Seq<u8> {
    ENDPOINT_SAMPLE_CLAIM_VALUE_V1_MAGIC@ + ENDPOINT_SAMPLE_CLAIM_V1_DOMAIN@ + be_u32(
        ENDPOINT_SAMPLE_CLAIM_TRANSCRIPT_V1_VERSION,
    ) + be_u16(m.dimension) + seq![m.membership.spec_code()] + be_u64_words(
        group_values(m, TARGET_TRANSLATION_GROUP as int),
    ) + be_u64_words(group_values(m, ANCHOR_TRANSLATION_GROUP as int)) + be_u64_words(
        group_values(m, REGION_CENTER_GROUP as int),
    ) + be_u64_words(group_values(m, OFFSET_FROM_CENTER_GROUP as int))
}

/// Canonical semantic position for one admitted persistent endpoint sample.
#[derive(Clone, Debug, PartialEq, Eq)]
pub struct CanonicalEndpointSampleClaimPositionV1 {
    bytes: Vec<u8>,
}

impl View for CanonicalEndpointSampleClaimPositionV1 {
    type V = Seq<u8>;

    closed spec fn view(&self) -> Seq<u8> {
        self.bytes@
    }
}

impl CanonicalEndpointSampleClaimPositionV1 {
    pub fn as_bytes(&self) -> (r: &[u8])
        ensures
            r@ == self@,
    {
        self.bytes.as_slice()
    }

    pub fn len(&self) -> (r: usize)
        ensures
            r == self@.len(),
    {
        self.bytes.len()
    }

    pub fn is_empty(&self) -> (r: bool)
        ensures
            r == (self@.len() == 0),
    {
        self.bytes.len() == 0
    }
}

/// Canonical semantic value asserted at one endpoint sample position.
#[derive(Clone, Debug, PartialEq, Eq)]
pub struct CanonicalEndpointSampleClaimValueV1 {
    bytes: Vec<u8>,
}

impl View for CanonicalEndpointSampleClaimValueV1 {
    type V = Seq<u8>;

    closed spec fn view(&self) -> Seq<u8> {
        self.bytes@
    }
}

impl CanonicalEndpointSampleClaimValueV1 {
    pub fn as_bytes(&self) -> (r: &[u8])
        ensures
            r@ == self@,
    {
        self.bytes.as_slice()
    }

    pub fn len(&self) -> (r: usize)
        ensures
            r == self@.len(),
    {
        self.bytes.len()
    }

    pub fn is_empty(&self) -> (r: bool)
        ensures
            r == (self@.len() == 0),
    {
        self.bytes.len() == 0
    }
}

/// One canonically admitted endpoint semantic claim split into position/value.
#[derive(Clone, Debug, PartialEq, Eq)]
pub struct CanonicalEndpointSampleClaimV1 {
    position: CanonicalEndpointSampleClaimPositionV1,
    value: CanonicalEndpointSampleClaimValueV1,
}

impl View for CanonicalEndpointSampleClaimV1 {
    type V = (Seq<u8>, Seq<u8>);

    closed spec fn view(&self) -> (Seq<u8>, Seq<u8>) {
        (self.position@, self.value@)
    }
}

impl CanonicalEndpointSampleClaimV1 {
    pub fn position(&self) -> (r: &CanonicalEndpointSampleClaimPositionV1)
        ensures
            r@ == self@.0,
    {
        &self.position
    }

    pub fn value(&self) -> (r: &CanonicalEndpointSampleClaimValueV1)
        ensures
            r@ == self@.1,
    {
        &self.value
    }
}

#[derive(Copy, Clone, Debug, PartialEq, Eq, Structural)]
pub enum EndpointSampleClaimComparisonV1 {
    /// The records assert different semantic sample positions/propositions.
    DistinctPosition,
    /// The records assert the exact same position and exact same value.
    Duplicate,
    /// The records assert the same position but incompatible admitted values.
    Contradiction,
}

#[derive(Clone, Debug, PartialEq, Eq)]
pub enum EndpointSampleClaimIdentityV1Error<F> {
    EndpointSample(EndpointSampleCodecV1Error<F>),
    TranscriptSizeOverflow,
    DecodedInvariant,
}

/// How two claims, given as (position, value) transcripts, relate.
pub open spec fn compare_claims(
    first: (Seq<u8>, Seq<u8>),
    second: (Seq<u8>, Seq<u8>),
) -> EndpointSampleClaimComparisonV1 {
    if first.0 != second.0 {
        EndpointSampleClaimComparisonV1::DistinctPosition
    } else if first.1 == second.1 {
        EndpointSampleClaimComparisonV1::Duplicate
    } else {
        EndpointSampleClaimComparisonV1::Contradiction
    }
}

/// Appends the big-endian bits of one stored axis value.
pub fn push_axis_bits<F>(output: &mut Vec<u8>, bits: Option<u64>) -> (res: Result<
    (),
    EndpointSampleClaimIdentityV1Error<F>,
>)
    ensures
        match bits {
            Some(b) => res is Ok && final(output)@ == old(output)@ + be_u64(b),
            None => res == Err::<(), EndpointSampleClaimIdentityV1Error<F>>(
                EndpointSampleClaimIdentityV1Error::DecodedInvariant,
            ) && final(output)@ == old(output)@,
        },
{
    match bits {
        Some(b) => {
            push_be_u64(output, b);
            Ok(())
        },
        None => Err(EndpointSampleClaimIdentityV1Error::DecodedInvariant),
    }
}

/// Appends the values of array `group` of `decoded`, axis by axis.
fn push_group<F>(output: &mut Vec<u8>, decoded: &DecodedEndpointSampleV1<'_>, group: usize) -> (res:
    Result<(), EndpointSampleClaimIdentityV1Error<F>>)
    requires
        group < 6,
    ensures
        res is Ok,
        final(output)@ == old(output)@ + be_u64_words(group_values(decoded@, group as int)),
        final(output)@.len() == old(output)@.len() + 8 * decoded@.dimension,
{
    let dimension = decoded.dimension();
    let ghost values = group_values(decoded@, group as int);
    let mut axis: usize = 0;
    while axis < dimension
        invariant
            axis <= dimension,
            dimension == decoded@.dimension,
            group < 6,
            values == group_values(decoded@, group as int),
            output@ == old(output)@ + be_u64_words(values.subrange(0, axis as int)),
        decreases dimension - axis,
    {
        let bits = decoded.array_bits(group, axis);
        let pushed: Result<(), EndpointSampleClaimIdentityV1Error<F>> = push_axis_bits(output, bits);
        assert(pushed is Ok);
        assert(values.subrange(0, axis + 1).drop_last() =~= values.subrange(0, axis as int));
        axis = axis + 1;
    }
    assert(values.subrange(0, dimension as int) =~= values);
    proof {
        lemma_be_u64_words(values);
    }
    Ok(())
}

/// Derives the position and value transcripts of one decoded endpoint sample.
pub fn derive_from_decoded_endpoint_sample_v1<F>(decoded: &DecodedEndpointSampleV1<'_>) -> (res:
    Result<CanonicalEndpointSampleClaimV1, EndpointSampleClaimIdentityV1Error<F>>)
    ensures
        res is Ok,
        res->Ok_0@ == (endpoint_claim_position_v1(decoded@), endpoint_claim_value_v1(decoded@)),
        res->Ok_0@.0.len() == POSITION_FIXED_V1_LEN + POSITION_PER_AXIS_V1_LEN * decoded@.dimension,
        res->Ok_0@.1.len() == VALUE_FIXED_V1_LEN + VALUE_PER_AXIS_V1_LEN * decoded@.dimension,
{
    let dimension = decoded.dimension();
    let dimension_u16 = dimension as u16;
    let position_len = POSITION_FIXED_V1_LEN + POSITION_PER_AXIS_V1_LEN * dimension;
    let value_len = VALUE_FIXED_V1_LEN + VALUE_PER_AXIS_V1_LEN * dimension;
    let session = decoded.session_binding();
    let session_id = session.session_id_bytes();

    let mut position: Vec<u8> = Vec::with_capacity(position_len);
    push_bytes(&mut position, &ENDPOINT_SAMPLE_CLAIM_POSITION_V1_MAGIC);
    push_bytes(&mut position, &ENDPOINT_SAMPLE_CLAIM_V1_DOMAIN);
    push_be_u32(&mut position, ENDPOINT_SAMPLE_CLAIM_TRANSCRIPT_V1_VERSION);
    push_be_u16(&mut position, dimension_u16);
    push_bytes(&mut position, session_id);
    push_be_u128(&mut position, session.physical_authority_raw());
    push_be_u128(&mut position, session.world_generation_raw());
    push_be_u64(&mut position, session.temporal_incarnation_raw());
    push_be_u32(&mut position, session.session_profile_code());
    push_be_u64(&mut position, decoded.step_index());
    push_be_u64(&mut position, decoded.target_net_id());
    push_be_u64(&mut position, decoded.anchor_net_id());
    let _ = push_group::<F>(&mut position, decoded, CENTER_OFFSET_GROUP);
    let _ = push_group::<F>(&mut position, decoded, HALF_EXTENTS_GROUP);

    let mut value: Vec<u8> = Vec::with_capacity(value_len);
    push_bytes(&mut value, &ENDPOINT_SAMPLE_CLAIM_VALUE_V1_MAGIC);
    push_bytes(&mut value, &ENDPOINT_SAMPLE_CLAIM_V1_DOMAIN);
    push_be_u32(&mut value, ENDPOINT_SAMPLE_CLAIM_TRANSCRIPT_V1_VERSION);
    push_be_u16(&mut value, dimension_u16);
    let membership_code = match decoded.membership() {
        CanonicalEndpointMembershipV1::Outside => 0u8,
        CanonicalEndpointMembershipV1::Inside => 1u8,
    };
    value.push(membership_code);
    let _ = push_group::<F>(&mut value, decoded, TARGET_TRANSLATION_GROUP);
    let _ = push_group::<F>(&mut value, decoded, ANCHOR_TRANSLATION_GROUP);
    let _ = push_group::<F>(&mut value, decoded, REGION_CENTER_GROUP);
    let _ = push_group::<F>(&mut value, decoded, OFFSET_FROM_CENTER_GROUP);

    assert(position@ =~= endpoint_claim_position_v1(decoded@));
    assert(value@ =~= endpoint_claim_value_v1(decoded@));
    Ok(
        CanonicalEndpointSampleClaimV1 {
            position: CanonicalEndpointSampleClaimPositionV1 { bytes: position },
            value: CanonicalEndpointSampleClaimValueV1 { bytes: value },
        },
    )
}

/// What deriving the claim of a handed-over endpoint frame yields: the
/// decoder's error, or the transcripts of the decoded sample.
pub open spec fn endpoint_claim_outcome<F>(input: EndpointSampleFrameV1<'_, F>) -> Result<
    (Seq<u8>, Seq<u8>),
    EndpointSampleClaimIdentityV1Error<F>,
> {
    match endpoint_input_outcome(input) {
        Ok(m) => Ok((endpoint_claim_position_v1(m), endpoint_claim_value_v1(m))),
        Err(e) => Err(EndpointSampleClaimIdentityV1Error::EndpointSample(e)),
    }
}

/// Derives canonical semantic position/value transcripts from one endpoint
/// frame. The frame always passes through `decode_endpoint_sample_v1` first.
pub fn derive_endpoint_sample_claim_v1<F>(input: EndpointSampleFrameV1<'_, F>) -> (res: Result<
    CanonicalEndpointSampleClaimV1,
    EndpointSampleClaimIdentityV1Error<F>,
>)
    requires
        endpoint_input_consistent(input),
    ensures
        match res {
            Ok(c) => endpoint_claim_outcome(input) == Ok::<
                (Seq<u8>, Seq<u8>),
                EndpointSampleClaimIdentityV1Error<F>,
            >(c@),
            Err(e) => endpoint_claim_outcome(input) == Err::<
                (Seq<u8>, Seq<u8>),
                EndpointSampleClaimIdentityV1Error<F>,
            >(e),
        },
        res is Ok ==> {
            let m = endpoint_input_outcome(input)->Ok_0;
            &&& res->Ok_0@.0.len() == POSITION_FIXED_V1_LEN + POSITION_PER_AXIS_V1_LEN
                * m.dimension
            &&& endpoint_claim_position_prefix_v1(m.dimension).is_prefix_of(res->Ok_0@.0)
            &&& res->Ok_0@.1.len() == VALUE_FIXED_V1_LEN + VALUE_PER_AXIS_V1_LEN * m.dimension
            &&& (ENDPOINT_SAMPLE_CLAIM_VALUE_V1_MAGIC@
                + ENDPOINT_SAMPLE_CLAIM_V1_DOMAIN@).is_prefix_of(res->Ok_0@.1)
            &&& res->Ok_0@.1[54] == m.membership.spec_code()
        },
{
    match decode_endpoint_sample_v1(input) {
        Ok(decoded) => {
            proof {
                decoded.lemma_session_id_len();
                lemma_endpoint_claim_layout_v1(decoded@);
            }
            derive_from_decoded_endpoint_sample_v1(&decoded)
        },
        Err(e) => Err(EndpointSampleClaimIdentityV1Error::EndpointSample(e)),
    }
}

/// Layout law of the endpoint transcripts: a position is 157 bytes plus 16 per
/// axis and opens with its magic, the domain, the version and the dimension; a
/// value is 55 bytes plus 32 per axis, opens with its own magic and the domain,
/// and carries the membership code at byte 54.
pub proof fn lemma_endpoint_claim_layout_v1(m: EndpointSampleModelV1)
    requires
        m.session.session_id.len() == 32,
    ensures
        endpoint_claim_position_v1(m).len() == POSITION_FIXED_V1_LEN + POSITION_PER_AXIS_V1_LEN
            * m.dimension,
        endpoint_claim_position_prefix_v1(m.dimension).is_prefix_of(endpoint_claim_position_v1(m)),
        endpoint_claim_value_v1(m).len() == VALUE_FIXED_V1_LEN + VALUE_PER_AXIS_V1_LEN
            * m.dimension,
        (ENDPOINT_SAMPLE_CLAIM_VALUE_V1_MAGIC@ + ENDPOINT_SAMPLE_CLAIM_V1_DOMAIN@).is_prefix_of(
            endpoint_claim_value_v1(m),
        ),
        endpoint_claim_value_v1(m)[54] == m.membership.spec_code(),
{
    let d = m.dimension as int;
    lemma_be_u32(ENDPOINT_SAMPLE_CLAIM_TRANSCRIPT_V1_VERSION);
    lemma_be_u16(m.dimension);
    lemma_be_u128(m.session.physical_authority);
    lemma_be_u128(m.session.world_generation);
    lemma_be_u64(m.session.temporal_incarnation);
    lemma_be_u32(m.session.profile_code);
    lemma_be_u64(m.step_index);
    lemma_be_u64(m.target_net_id);
    lemma_be_u64(m.anchor_net_id);
    lemma_group_values_len(m, CENTER_OFFSET_GROUP as int);
    lemma_group_values_len(m, HALF_EXTENTS_GROUP as int);
    lemma_group_values_len(m, TARGET_TRANSLATION_GROUP as int);
    lemma_group_values_len(m, ANCHOR_TRANSLATION_GROUP as int);
    lemma_group_values_len(m, REGION_CENTER_GROUP as int);
    lemma_group_values_len(m, OFFSET_FROM_CENTER_GROUP as int);
    lemma_be_u64_words(group_values(m, CENTER_OFFSET_GROUP as int));
    lemma_be_u64_words(group_values(m, HALF_EXTENTS_GROUP as int));
    lemma_be_u64_words(group_values(m, TARGET_TRANSLATION_GROUP as int));
    lemma_be_u64_words(group_values(m, ANCHOR_TRANSLATION_GROUP as int));
    lemma_be_u64_words(group_values(m, REGION_CENTER_GROUP as int));
    lemma_be_u64_words(group_values(m, OFFSET_FROM_CENTER_GROUP as int));
    let position = endpoint_claim_position_v1(m);
    let prefix = endpoint_claim_position_prefix_v1(m.dimension);
    assert(prefix.len() == 57);
    assert(position.subrange(0, 57) =~= prefix);
    let value = endpoint_claim_value_v1(m);
    let value_prefix = ENDPOINT_SAMPLE_CLAIM_VALUE_V1_MAGIC@ + ENDPOINT_SAMPLE_CLAIM_V1_DOMAIN@;
    assert(value_prefix.len() == 48);
    assert(value.subrange(0, 48) =~= value_prefix);
    assert(value[54] == m.membership.spec_code());
}

/// Compares two already-derived endpoint semantic claims.
pub fn compare_endpoint_sample_claims_v1(
    first: &CanonicalEndpointSampleClaimV1,
    second: &CanonicalEndpointSampleClaimV1,
) -> (r: EndpointSampleClaimComparisonV1)
    ensures
        r == compare_claims(first@, second@),
{
    if !bytes_equal(first.position.bytes.as_slice(), second.position.bytes.as_slice()) {
        EndpointSampleClaimComparisonV1::DistinctPosition
    } else if bytes_equal(first.value.bytes.as_slice(), second.value.bytes.as_slice()) {
        EndpointSampleClaimComparisonV1::Duplicate
    } else {
        EndpointSampleClaimComparisonV1::Contradiction
    }
}

/// Decodes, derives and compares two endpoint frames. The classification is
/// semantic only: without authentication a contradiction does not yet prove
/// an authority fork.
pub fn classify_endpoint_sample_frames_v1<F>(
    first: EndpointSampleFrameV1<'_, F>,
    second: EndpointSampleFrameV1<'_, F>,
) -> (res: Result<EndpointSampleClaimComparisonV1, EndpointSampleClaimIdentityV1Error<F>>)
    requires
        endpoint_input_consistent(first),
        endpoint_input_consistent(second),
    ensures
        match (endpoint_claim_outcome(first), endpoint_claim_outcome(second)) {
            (Err(e), _) => res == Err::<
                EndpointSampleClaimComparisonV1,
                EndpointSampleClaimIdentityV1Error<F>,
            >(e),
            (Ok(_), Err(e)) => res == Err::<
                EndpointSampleClaimComparisonV1,
                EndpointSampleClaimIdentityV1Error<F>,
            >(e),
            (Ok(a), Ok(b)) => res == Ok::<
                EndpointSampleClaimComparisonV1,
                EndpointSampleClaimIdentityV1Error<F>,
            >(compare_claims(a, b)),
        },
{
    let ghost first_outcome = endpoint_claim_outcome(first);
    let ghost second_outcome = endpoint_claim_outcome(second);
    let first_claim = match derive_endpoint_sample_claim_v1(first) {
        Ok(c) => c,
        Err(e) => {
            return Err(e);
        },
    };
    let second_claim = match derive_endpoint_sample_claim_v1(second) {
        Ok(c) => c,
        Err(e) => {
            return Err(e);
        },
    };
    Ok(compare_endpoint_sample_claims_v1(&first_claim, &second_claim))
}

/// A claim compared with itself is a duplicate.
pub proof fn lemma_compare_claims_reflexive(claim: (Seq<u8>, Seq<u8>))
    ensures
        compare_claims(claim, claim) == EndpointSampleClaimComparisonV1::Duplicate,
{
}

/// Comparison does not depend on the order of the two claims.
pub proof fn lemma_compare_claims_symmetric(first: (Seq<u8>, Seq<u8>), second: (Seq<u8>, Seq<u8>))
    ensures
        compare_claims(first, second) == compare_claims(second, first),
{
}

/// Two claims are duplicates exactly when both transcripts agree, and
/// contradict exactly when only the positions agree.
pub proof fn lemma_compare_claims_cases(first: (Seq<u8>, Seq<u8>), second: (Seq<u8>, Seq<u8>))
    ensures
        (compare_claims(first, second) == EndpointSampleClaimComparisonV1::Duplicate) <==> (first
            == second),
        (compare_claims(first, second) == EndpointSampleClaimComparisonV1::Contradiction) <==> (
        first.0 == second.0 && first.1 != second.1),
{
}

proof fn lemma_be_u64_words_injective(a: Seq<u64>, b: Seq<u64>)
    requires
        a.len() == b.len(),
        be_u64_words(a) == be_u64_words(b),
    ensures
        a == b,
{
    lemma_be_u64_words(a);
    lemma_be_u64_words(b);
    assert forall|i: int| 0 <= i < a.len() implies a[i] == b[i] by {
        assert(be_u64_words(a).subrange(8 * i, 8 * i + 8) == be_u64(a[i]));
        assert(be_u64_words(b).subrange(8 * i, 8 * i + 8) == be_u64(b[i]));
        lemma_be_u64(a[i]);
        lemma_be_u64(b[i]);
    }
    assert(a =~= b);
}

proof fn lemma_group_values_len(m: EndpointSampleModelV1, group: int)
    ensures
        group_values(m, group).len() == m.dimension,
        be_u64_words(group_values(m, group)).len() == 8 * m.dimension,
{
    lemma_be_u64_words(group_values(m, group));
}

/// The position transcript determines everything it is made of: dimension,
/// session, step, target, anchor, center offsets and half extents. Samples
/// that differ in any of these have distinct positions.
#[verifier::spinoff_prover]
#[verifier::rlimit(40)]
pub proof fn lemma_endpoint_position_determines_fields(
    m1: EndpointSampleModelV1,
    m2: EndpointSampleModelV1,
)
    requires
        m1.session.session_id.len() == 32,
        m2.session.session_id.len() == 32,
        endpoint_claim_position_v1(m1) == endpoint_claim_position_v1(m2),
    ensures
        m1.dimension == m2.dimension,
        m1.session == m2.session,
        m1.step_index == m2.step_index,
        m1.target_net_id == m2.target_net_id,
        m1.anchor_net_id == m2.anchor_net_id,
        group_values(m1, CENTER_OFFSET_GROUP as int) == group_values(m2, CENTER_OFFSET_GROUP as int),
        group_values(m1, HALF_EXTENTS_GROUP as int) == group_values(m2, HALF_EXTENTS_GROUP as int),
{
    let t = endpoint_claim_position_v1(m1);
    lemma_be_u16(m1.dimension);
    lemma_be_u16(m2.dimension);
    lemma_be_u128(m1.session.physical_authority);
    lemma_be_u128(m2.session.physical_authority);
    lemma_be_u128(m1.session.world_generation);
    lemma_be_u128(m2.session.world_generation);
    lemma_be_u64(m1.session.temporal_incarnation);
    lemma_be_u64(m2.session.temporal_incarnation);
    lemma_be_u32(m1.session.profile_code);
    lemma_be_u32(m2.session.profile_code);
    lemma_be_u32(ENDPOINT_SAMPLE_CLAIM_TRANSCRIPT_V1_VERSION);
    lemma_be_u64(m1.step_index);
    lemma_be_u64(m2.step_index);
    lemma_be_u64(m1.target_net_id);
    lemma_be_u64(m2.target_net_id);
    lemma_be_u64(m1.anchor_net_id);
    lemma_be_u64(m2.anchor_net_id);
    lemma_group_values_len(m1, 0);
    lemma_group_values_len(m2, 0);
    lemma_group_values_len(m1, 1);
    lemma_group_values_len(m2, 1);
    let head1 = ENDPOINT_SAMPLE_CLAIM_POSITION_V1_MAGIC@ + ENDPOINT_SAMPLE_CLAIM_V1_DOMAIN@ + be_u32(
        ENDPOINT_SAMPLE_CLAIM_TRANSCRIPT_V1_VERSION,
    );
    assert(head1.len() == 55);
    let f1 = head1 + be_u16(m1.dimension) + m1.session.session_id + be_u128(
        m1.session.physical_authority,
    ) + be_u128(m1.session.world_generation) + be_u64(m1.session.temporal_incarnation) + be_u32(
        m1.session.profile_code,
    ) + be_u64(m1.step_index) + be_u64(m1.target_net_id) + be_u64(m1.anchor_net_id);
    let f2 = head1 + be_u16(m2.dimension) + m2.session.session_id + be_u128(
        m2.session.physical_authority,
    ) + be_u128(m2.session.world_generation) + be_u64(m2.session.temporal_incarnation) + be_u32(
        m2.session.profile_code,
    ) + be_u64(m2.step_index) + be_u64(m2.target_net_id) + be_u64(m2.anchor_net_id);
    let g1a = be_u64_words(group_values(m1, 0));
    let g1b = be_u64_words(group_values(m1, 1));
    let g2a = be_u64_words(group_values(m2, 0));
    let g2b = be_u64_words(group_values(m2, 1));
    assert(t == f1 + g1a + g1b);
    assert(t == f2 + g2a + g2b);
    assert(f1.len() == 157 && f2.len() == 157);
    assert(t.subrange(55, 57) =~= be_u16(m1.dimension));
    assert(t.subrange(55, 57) =~= be_u16(m2.dimension));
    assert(t.subrange(57, 89) =~= m1.session.session_id);
    assert(t.subrange(57, 89) =~= m2.session.session_id);
    assert(t.subrange(89, 105) =~= be_u128(m1.session.physical_authority));
    assert(t.subrange(89, 105) =~= be_u128(m2.session.physical_authority));
    assert(t.subrange(105, 121) =~= be_u128(m1.session.world_generation));
    assert(t.subrange(105, 121) =~= be_u128(m2.session.world_generation));
    assert(t.subrange(121, 129) =~= be_u64(m1.session.temporal_incarnation));
    assert(t.subrange(121, 129) =~= be_u64(m2.session.temporal_incarnation));
    assert(t.subrange(129, 133) =~= be_u32(m1.session.profile_code));
    assert(t.subrange(129, 133) =~= be_u32(m2.session.profile_code));
    assert(t.subrange(133, 141) =~= be_u64(m1.step_index));
    assert(t.subrange(133, 141) =~= be_u64(m2.step_index));
    assert(t.subrange(141, 149) =~= be_u64(m1.target_net_id));
    assert(t.subrange(141, 149) =~= be_u64(m2.target_net_id));
    assert(t.subrange(149, 157) =~= be_u64(m1.anchor_net_id));
    assert(t.subrange(149, 157) =~= be_u64(m2.anchor_net_id));
    assert(m1.dimension == m2.dimension);
    let d = 8 * m1.dimension;
    assert(t.subrange(157, 157 + d) =~= g1a);
    assert(t.subrange(157, 157 + d) =~= g2a);
    assert(t.subrange(157 + d, 157 + 2 * d) =~= g1b);
    assert(t.subrange(157 + d, 157 + 2 * d) =~= g2b);
    lemma_be_u64_words_injective(group_values(m1, 0), group_values(m2, 0));
    lemma_be_u64_words_injective(group_values(m1, 1), group_values(m2, 1));
}

/// The value transcript determines membership and the observed and derived
/// geometry; the position fields never enter it.
pub proof fn lemma_endpoint_value_determines_fields(
    m1: EndpointSampleModelV1,
    m2: EndpointSampleModelV1,
)
    requires
        endpoint_claim_value_v1(m1) == endpoint_claim_value_v1(m2),
    ensures
        m1.dimension == m2.dimension,
        m1.membership == m2.membership,
        group_values(m1, TARGET_TRANSLATION_GROUP as int) == group_values(
            m2,
            TARGET_TRANSLATION_GROUP as int,
        ),
        group_values(m1, ANCHOR_TRANSLATION_GROUP as int) == group_values(
            m2,
            ANCHOR_TRANSLATION_GROUP as int,
        ),
        group_values(m1, REGION_CENTER_GROUP as int) == group_values(m2, REGION_CENTER_GROUP as int),
        group_values(m1, OFFSET_FROM_CENTER_GROUP as int) == group_values(
            m2,
            OFFSET_FROM_CENTER_GROUP as int,
        ),
{
    let t = endpoint_claim_value_v1(m1);
    lemma_be_u16(m1.dimension);
    lemma_be_u16(m2.dimension);
    lemma_be_u32(ENDPOINT_SAMPLE_CLAIM_TRANSCRIPT_V1_VERSION);
    let head = ENDPOINT_SAMPLE_CLAIM_VALUE_V1_MAGIC@ + ENDPOINT_SAMPLE_CLAIM_V1_DOMAIN@ + be_u32(
        ENDPOINT_SAMPLE_CLAIM_TRANSCRIPT_V1_VERSION,
    );
    assert(head.len() == 52);
    lemma_group_values_len(m1, 2);
    lemma_group_values_len(m2, 2);
    lemma_group_values_len(m1, 3);
    lemma_group_values_len(m2, 3);
    lemma_group_values_len(m1, 4);
    lemma_group_values_len(m2, 4);
    lemma_group_values_len(m1, 5);
    lemma_group_values_len(m2, 5);
    let a1 = head + be_u16(m1.dimension) + seq![m1.membership.spec_code()];
    let a2 = head + be_u16(m2.dimension) + seq![m2.membership.spec_code()];
    assert(t == a1 + be_u64_words(group_values(m1, 2)) + be_u64_words(group_values(m1, 3))
        + be_u64_words(group_values(m1, 4)) + be_u64_words(group_values(m1, 5)));
    assert(t == a2 + be_u64_words(group_values(m2, 2)) + be_u64_words(group_values(m2, 3))
        + be_u64_words(group_values(m2, 4)) + be_u64_words(group_values(m2, 5)));
    assert(t.subrange(52, 54) =~= be_u16(m1.dimension));
    assert(t.subrange(52, 54) =~= be_u16(m2.dimension));
    assert(t[54] == m1.membership.spec_code() && t[54] == m2.membership.spec_code());
    assert(m1.membership == m2.membership) by {
        match m1.membership {
            CanonicalEndpointMembershipV1::Outside => {},
            CanonicalEndpointMembershipV1::Inside => {},
        }
        match m2.membership {
            CanonicalEndpointMembershipV1::Outside => {},
            CanonicalEndpointMembershipV1::Inside => {},
        }
    }
    let d = 8 * m1.dimension;
    assert(t.subrange(55, 55 + d) =~= be_u64_words(group_values(m1, 2)));
    assert(t.subrange(55, 55 + d) =~= be_u64_words(group_values(m2, 2)));
    assert(t.subrange(55 + d, 55 + 2 * d) =~= be_u64_words(group_values(m1, 3)));
    assert(t.subrange(55 + d, 55 + 2 * d) =~= be_u64_words(group_values(m2, 3)));
    assert(t.subrange(55 + 2 * d, 55 + 3 * d) =~= be_u64_words(group_values(m1, 4)));
    assert(t.subrange(55 + 2 * d, 55 + 3 * d) =~= be_u64_words(group_values(m2, 4)));
    assert(t.subrange(55 + 3 * d, 55 + 4 * d) =~= be_u64_words(group_values(m1, 5)));
    assert(t.subrange(55 + 3 * d, 55 + 4 * d) =~= be_u64_words(group_values(m2, 5)));
    lemma_be_u64_words_injective(group_values(m1, 2), group_values(m2, 2));
    lemma_be_u64_words_injective(group_values(m1, 3), group_values(m2, 3));
    lemma_be_u64_words_injective(group_values(m1, 4), group_values(m2, 4));
    lemma_be_u64_words_injective(group_values(m1, 5), group_values(m2, 5));
}

/// Samples that agree on session, dimension, step, target, anchor and region
/// share their position, whatever their membership and observed geometry.
pub proof fn lemma_endpoint_position_ignores_values(
    m1: EndpointSampleModelV1,
    m2: EndpointSampleModelV1,
)
    requires
        m1.dimension == m2.dimension,
        m1.session == m2.session,
        m1.step_index == m2.step_index,
        m1.target_net_id == m2.target_net_id,
        m1.anchor_net_id == m2.anchor_net_id,
        group_values(m1, CENTER_OFFSET_GROUP as int) == group_values(m2, CENTER_OFFSET_GROUP as int),
        group_values(m1, HALF_EXTENTS_GROUP as int) == group_values(m2, HALF_EXTENTS_GROUP as int),
    ensures
        endpoint_claim_position_v1(m1) == endpoint_claim_position_v1(m2),
{
}

} // verus!
