//! Ordered semantic claim identity for persistent consecutive sampled presence.
//!
//! The endpoint semantic transcripts of the two samples are composed, in
//! order, only after the relation has been admitted. Raw endpoint or relation
//! framing bytes never become part of the derived identity.
use crate::be_bytes::{be_u32, bytes_equal, lemma_be_u32, push_be_u32, push_bytes};
use crate::consecutive_presence_codec::{
    consecutive_presence_outcome, decode_consecutive_sampled_presence_v1,
    lemma_admitted_relation_same_dimension,
    relation_inputs_consistent, ConsecutivePresenceCodecV1Error, ConsecutivePresenceModelV1,
};
use crate::endpoint_claim_identity::{
    derive_from_decoded_endpoint_sample_v1, endpoint_claim_position_v1, endpoint_claim_value_v1,
    lemma_endpoint_claim_layout_v1, EndpointSampleClaimIdentityV1Error,
    ENDPOINT_SAMPLE_CLAIM_POSITION_V1_MAGIC, ENDPOINT_SAMPLE_CLAIM_VALUE_V1_MAGIC,
    POSITION_FIXED_V1_LEN, POSITION_PER_AXIS_V1_LEN, VALUE_FIXED_V1_LEN, VALUE_PER_AXIS_V1_LEN,
};
use crate::endpoint_sample_codec::EndpointSampleFrameV1;
use crate::frame::EvidenceFrameV1;
use vstd::prelude::*;

verus! {

/// `consecutive-presence-v1\0`
pub const CONSECUTIVE_PRESENCE_CLAIM_V1_DOMAIN: [u8; 24] = [
    0x63, 0x6f, 0x6e, 0x73, 0x65, 0x63, 0x75, 0x74, 0x69, 0x76, 0x65, 0x2d, 0x70, 0x72, 0x65, 0x73,
    0x65, 0x6e, 0x63, 0x65, 0x2d, 0x76, 0x31, 0x00,
];

pub const CONSECUTIVE_PRESENCE_CLAIM_TRANSCRIPT_V1_VERSION: u32 = 1;

/// An ordered transcript: magic, relation domain, version, then each endpoint
/// transcript preceded by its big-endian `u32` length.
pub open spec fn ordered_transcript(magic: Seq<u8>, previous: Seq<u8>, current: Seq<u8>) -> Seq<u8> {
    magic + CONSECUTIVE_PRESENCE_CLAIM_V1_DOMAIN@ + be_u32(
        CONSECUTIVE_PRESENCE_CLAIM_TRANSCRIPT_V1_VERSION,
    ) + be_u32(previous.len() as u32) + previous + be_u32(current.len() as u32) + current
}

/// Position transcript of an admitted relation: the ordered endpoint positions.
pub open spec fn consecutive_claim_position_v1(m: ConsecutivePresenceModelV1) -> Seq<u8> {
    ordered_transcript(
        ENDPOINT_SAMPLE_CLAIM_POSITION_V1_MAGIC@,
        endpoint_claim_position_v1(m.previous),
        endpoint_claim_position_v1(m.current),
    )
}

/// Value transcript of an admitted relation: the ordered endpoint values.
pub open spec fn consecutive_claim_value_v1(m: ConsecutivePresenceModelV1) -> Seq<u8> {
    ordered_transcript(
        ENDPOINT_SAMPLE_CLAIM_VALUE_V1_MAGIC@,
        endpoint_claim_value_v1(m.previous),
        endpoint_claim_value_v1(m.current),
    )
}

/// Canonical semantic position for one admitted ordered consecutive-presence claim.
#[derive(Clone, Debug, PartialEq, Eq)]
pub struct CanonicalConsecutivePresenceClaimPositionV1 {
    bytes: Vec<u8>,
}

impl View for CanonicalConsecutivePresenceClaimPositionV1 {
    type V = Seq<u8>;

    closed spec fn view(&self) -> Seq<u8> {
        self.bytes@
    }
}

impl CanonicalConsecutivePresenceClaimPositionV1 {
    pub fn as_bytes(&self) -> (r: &[u8])
        ensures
            r@ == self@,
    {
        self.bytes.as_slice()
    }

    pub fn len(&self) -> (r: usize)
        ensures
            r == self@.len(),
    {
        self.bytes.len()
    }

    pub fn is_empty(&self) -> (r: bool)
        ensures
            r == (self@.len() == 0),
    {
        self.bytes.len() == 0
    }
}

/// Canonical semantic value supporting one admitted ordered consecutive-presence claim.
#[derive(Clone, Debug, PartialEq, Eq)]
pub struct CanonicalConsecutivePresenceClaimValueV1 {
    bytes: Vec<u8>,
}

impl View for CanonicalConsecutivePresenceClaimValueV1 {
    type V = Seq<u8>;

    closed spec fn view(&self) -> Seq<u8> {
        self.bytes@
    }
}

impl CanonicalConsecutivePresenceClaimValueV1 {
    pub fn as_bytes(&self) -> (r: &[u8])
        ensures
            r@ == self@,
    {
        self.bytes.as_slice()
    }

    pub fn len(&self) -> (r: usize)
        ensures
            r == self@.len(),
    {
        self.bytes.len()
    }

    pub fn is_empty(&self) -> (r: bool)
        ensures
            r == (self@.len() == 0),
    {
        self.bytes.len() == 0
    }
}

/// One canonically admitted derived claim split into semantic position/value.
#[derive(Clone, Debug, PartialEq, Eq)]
pub struct CanonicalConsecutivePresenceClaimV1 {
    position: CanonicalConsecutivePresenceClaimPositionV1,
    value: CanonicalConsecutivePresenceClaimValueV1,
}

impl View for CanonicalConsecutivePresenceClaimV1 {
    type V = (Seq<u8>, Seq<u8>);

    closed spec fn view(&self) -> (Seq<u8>, Seq<u8>) {
        (self.position@, self.value@)
    }
}

impl CanonicalConsecutivePresenceClaimV1 {
    pub fn position(&self) -> (r: &CanonicalConsecutivePresenceClaimPositionV1)
        ensures
            r@ == self@.0,
    {
        &self.position
    }

    pub fn value(&self) -> (r: &CanonicalConsecutivePresenceClaimValueV1)
        ensures
            r@ == self@.1,
    {
        &self.value
    }
}

#[derive(Copy, Clone, Debug, PartialEq, Eq, Structural)]
pub enum ConsecutivePresenceClaimComparisonV1 {
    DistinctPosition,
    Duplicate,
    Contradiction,
}

#[derive(Clone, Debug, PartialEq, Eq)]
pub enum ConsecutivePresenceClaimIdentityV1Error<F> {
    Relation(ConsecutivePresenceCodecV1Error<F>),
    EndpointClaim(EndpointSampleClaimIdentityV1Error<F>),
    TranscriptSizeOverflow,
}

/// How two relation claims, given as (position, value) transcripts, relate.
pub open spec fn compare_relation_claims(
    first: (Seq<u8>, Seq<u8>),
    second: (Seq<u8>, Seq<u8>),
) -> ConsecutivePresenceClaimComparisonV1 {
    if first.0 != second.0 {
        ConsecutivePresenceClaimComparisonV1::DistinctPosition
    } else if first.1 == second.1 {
        ConsecutivePresenceClaimComparisonV1::Duplicate
    } else {
        ConsecutivePresenceClaimComparisonV1::Contradiction
    }
}

/// What composing an ordered transcript yields.
pub open spec fn ordered_transcript_outcome<F>(
    magic: Seq<u8>,
    previous: Seq<u8>,
    current: Seq<u8>,
) -> Result<Seq<u8>, ConsecutivePresenceClaimIdentityV1Error<F>> {
    if previous.len() > u32::MAX || current.len() > u32::MAX || magic.len()
        + CONSECUTIVE_PRESENCE_CLAIM_V1_DOMAIN@.len() + 12 + previous.len() + current.len()
        > usize::MAX {
        Err(ConsecutivePresenceClaimIdentityV1Error::TranscriptSizeOverflow)
    } else {
        Ok(ordered_transcript(magic, previous, current))
    }
}

/// Composes one ordered transcript from two endpoint transcripts.
pub fn compose_ordered_transcript<F>(magic: &[u8], previous: &[u8], current: &[u8]) -> (res:
    Result<Vec<u8>, ConsecutivePresenceClaimIdentityV1Error<F>>)
    ensures
        match res {
            Ok(t) => ordered_transcript_outcome::<F>(magic@, previous@, current@) == Ok::<
                Seq<u8>,
                ConsecutivePresenceClaimIdentityV1Error<F>,
            >(t@),
            Err(e) => ordered_transcript_outcome::<F>(magic@, previous@, current@) == Err::<
                Seq<u8>,
                ConsecutivePresenceClaimIdentityV1Error<F>,
            >(e),
        },
{
    if previous.len() > 0xffff_ffff || current.len() > 0xffff_ffff {
        return Err(ConsecutivePresenceClaimIdentityV1Error::TranscriptSizeOverflow);
    }
    let fixed = CONSECUTIVE_PRESENCE_CLAIM_V1_DOMAIN.len() + 12;
    if magic.len() > usize::MAX - fixed || previous.len() > usize::MAX - fixed - magic.len()
        || current.len() > usize::MAX - fixed - magic.len() - previous.len() {
        return Err(ConsecutivePresenceClaimIdentityV1Error::TranscriptSizeOverflow);
    }
    let total = magic.len() + fixed + previous.len() + current.len();
    let mut transcript: Vec<u8> = Vec::with_capacity(total);
    push_bytes(&mut transcript, magic);
    push_bytes(&mut transcript, &CONSECUTIVE_PRESENCE_CLAIM_V1_DOMAIN);
    push_be_u32(&mut transcript, CONSECUTIVE_PRESENCE_CLAIM_TRANSCRIPT_V1_VERSION);
    push_be_u32(&mut transcript, previous.len() as u32);
    push_bytes(&mut transcript, previous);
    push_be_u32(&mut transcript, current.len() as u32);
    push_bytes(&mut transcript, current);
    Ok(transcript)
}

/// What deriving the claim of a handed-over relation frame yields.
pub open spec fn consecutive_claim_outcome<F>(
    frame: EvidenceFrameV1<'_>,
    previous: EndpointSampleFrameV1<'_, F>,
    current: EndpointSampleFrameV1<'_, F>,
) -> Result<(Seq<u8>, Seq<u8>), ConsecutivePresenceClaimIdentityV1Error<F>> {
    match consecutive_presence_outcome(frame, previous, current) {
        Ok(m) => Ok((consecutive_claim_position_v1(m), consecutive_claim_value_v1(m))),
        Err(e) => Err(ConsecutivePresenceClaimIdentityV1Error::Relation(e)),
    }
}

/// Derives ordered semantic position/value transcripts from one relation
/// frame. Admission and order are left to the relation decoder and each
/// sample's identity to the endpoint claim derivation; no framing bytes enter
/// the transcripts.
pub fn derive_consecutive_presence_claim_v1<F>(
    frame: EvidenceFrameV1<'_>,
    previous: EndpointSampleFrameV1<'_, F>,
    current: EndpointSampleFrameV1<'_, F>,
) -> (res: Result<CanonicalConsecutivePresenceClaimV1, ConsecutivePresenceClaimIdentityV1Error<F>>)
    requires
        relation_inputs_consistent(frame, previous, current),
    ensures
        match res {
            Ok(c) => consecutive_claim_outcome(frame, previous, current) == Ok::<
                (Seq<u8>, Seq<u8>),
                ConsecutivePresenceClaimIdentityV1Error<F>,
            >(c@),
            Err(e) => consecutive_claim_outcome(frame, previous, current) == Err::<
                (Seq<u8>, Seq<u8>),
                ConsecutivePresenceClaimIdentityV1Error<F>,
            >(e),
        },
        res is Ok ==> {
            let m = consecutive_presence_outcome(frame, previous, current)->Ok_0;
            &&& m.current.dimension == m.previous.dimension
            &&& res->Ok_0@.0.len() == 68 + 2 * (POSITION_FIXED_V1_LEN + POSITION_PER_AXIS_V1_LEN
                * m.previous.dimension)
            &&& res->Ok_0@.1.len() == 65 + 2 * (VALUE_FIXED_V1_LEN + VALUE_PER_AXIS_V1_LEN
                * m.previous.dimension)
        },
{
    let decoded = match decode_consecutive_sampled_presence_v1(frame, previous, current) {
        Ok(decoded) => decoded,
        Err(e) => {
            return Err(ConsecutivePresenceClaimIdentityV1Error::Relation(e));
        },
    };
    let previous_sample = decoded.previous();
    let current_sample = decoded.current();
    proof {
        previous_sample.lemma_session_id_len();
        current_sample.lemma_session_id_len();
        lemma_admitted_relation_same_dimension(frame, previous, current);
        lemma_consecutive_claim_layout_v1(decoded@);
    }
    let previous_claim = match derive_from_decoded_endpoint_sample_v1::<F>(previous_sample) {
        Ok(claim) => claim,
        Err(e) => {
            return Err(ConsecutivePresenceClaimIdentityV1Error::EndpointClaim(e));
        },
    };
    let current_claim = match derive_from_decoded_endpoint_sample_v1::<F>(current_sample) {
        Ok(claim) => claim,
        Err(e) => {
            return Err(ConsecutivePresenceClaimIdentityV1Error::EndpointClaim(e));
        },
    };
    let position = compose_ordered_transcript(
        &ENDPOINT_SAMPLE_CLAIM_POSITION_V1_MAGIC,
        previous_claim.position().as_bytes(),
        current_claim.position().as_bytes(),
    );
    let position = match position {
        Ok(t) => t,
        Err(e) => {
            return Err(e);
        },
    };
    let value = compose_ordered_transcript(
        &ENDPOINT_SAMPLE_CLAIM_VALUE_V1_MAGIC,
        previous_claim.value().as_bytes(),
        current_claim.value().as_bytes(),
    );
    let value = match value {
        Ok(t) => t,
        Err(e) => {
            return Err(e);
        },
    };
    Ok(
        CanonicalConsecutivePresenceClaimV1 {
            position: CanonicalConsecutivePresenceClaimPositionV1 { bytes: position },
            value: CanonicalConsecutivePresenceClaimValueV1 { bytes: value },
        },
    )
}

/// Length of an ordered transcript: its magic, the 24-byte domain, three
/// 4-byte words and both endpoint transcripts.
proof fn lemma_ordered_transcript_len(magic: Seq<u8>, previous: Seq<u8>, current: Seq<u8>)
    ensures
        ordered_transcript(magic, previous, current).len() == magic.len() + 36 + previous.len()
            + current.len(),
{
    lemma_be_u32(CONSECUTIVE_PRESENCE_CLAIM_TRANSCRIPT_V1_VERSION);
    lemma_be_u32(previous.len() as u32);
    lemma_be_u32(current.len() as u32);
}

/// Layout law of the relation transcripts: for two samples of one dimension,
/// the position is 68 bytes plus both endpoint positions, each 157 bytes plus
/// 16 per axis; the value is 65 bytes plus both endpoint values, each 55 bytes
/// plus 32 per axis.
pub proof fn lemma_consecutive_claim_layout_v1(m: ConsecutivePresenceModelV1)
    requires
        m.previous.session.session_id.len() == 32,
        m.current.session.session_id.len() == 32,
        m.previous.dimension == m.current.dimension,
    ensures
        consecutive_claim_position_v1(m).len() == 68 + 2 * (POSITION_FIXED_V1_LEN
            + POSITION_PER_AXIS_V1_LEN * m.previous.dimension),
        consecutive_claim_value_v1(m).len() == 65 + 2 * (VALUE_FIXED_V1_LEN + VALUE_PER_AXIS_V1_LEN
            * m.previous.dimension),
{
    lemma_endpoint_claim_layout_v1(m.previous);
    lemma_endpoint_claim_layout_v1(m.current);
    lemma_ordered_transcript_len(
        ENDPOINT_SAMPLE_CLAIM_POSITION_V1_MAGIC@,
        endpoint_claim_position_v1(m.previous),
        endpoint_claim_position_v1(m.current),
    );
    lemma_ordered_transcript_len(
        ENDPOINT_SAMPLE_CLAIM_VALUE_V1_MAGIC@,
        endpoint_claim_value_v1(m.previous),
        endpoint_claim_value_v1(m.current),
    );
}

pub fn compare_consecutive_presence_claims_v1(
    first: &CanonicalConsecutivePresenceClaimV1,
    second: &CanonicalConsecutivePresenceClaimV1,
) -> (r: ConsecutivePresenceClaimComparisonV1)
    ensures
        r == compare_relation_claims(first@, second@),
{
    if !bytes_equal(first.position.bytes.as_slice(), second.position.bytes.as_slice()) {
        ConsecutivePresenceClaimComparisonV1::DistinctPosition
    } else if bytes_equal(first.value.bytes.as_slice(), second.value.bytes.as_slice()) {
        ConsecutivePresenceClaimComparisonV1::Duplicate
    } else {
        ConsecutivePresenceClaimComparisonV1::Contradiction
    }
}

pub fn classify_consecutive_presence_frames_v1<F>(
    first_frame: EvidenceFrameV1<'_>,
    first_previous: EndpointSampleFrameV1<'_, F>,
    first_current: EndpointSampleFrameV1<'_, F>,
    second_frame: EvidenceFrameV1<'_>,
    second_previous: EndpointSampleFrameV1<'_, F>,
    second_current: EndpointSampleFrameV1<'_, F>,
) -> (res: Result<ConsecutivePresenceClaimComparisonV1, ConsecutivePresenceClaimIdentityV1Error<F>>)
    requires
        relation_inputs_consistent(first_frame, first_previous, first_current),
        relation_inputs_consistent(second_frame, second_previous, second_current),
    ensures
        match (
            consecutive_claim_outcome(first_frame, first_previous, first_current),
            consecutive_claim_outcome(second_frame, second_previous, second_current),
        ) {
            (Err(e), _) => res == Err::<
                ConsecutivePresenceClaimComparisonV1,
                ConsecutivePresenceClaimIdentityV1Error<F>,
            >(e),
            (Ok(_), Err(e)) => res == Err::<
                ConsecutivePresenceClaimComparisonV1,
                ConsecutivePresenceClaimIdentityV1Error<F>,
            >(e),
            (Ok(a), Ok(b)) => res == Ok::<
                ConsecutivePresenceClaimComparisonV1,
                ConsecutivePresenceClaimIdentityV1Error<F>,
            >(compare_relation_claims(a, b)),
        },
{
    let ghost first_outcome = consecutive_claim_outcome(first_frame, first_previous, first_current);
    let ghost second_outcome = consecutive_claim_outcome(
        second_frame,
        second_previous,
        second_current,
    );
    let first = match derive_consecutive_presence_claim_v1(
        first_frame,
        first_previous,
        first_current,
    ) {
        Ok(c) => c,
        Err(e) => {
            return Err(e);
        },
    };
    let second = match derive_consecutive_presence_claim_v1(
        second_frame,
        second_previous,
        second_current,
    ) {
        Ok(c) => c,
        Err(e) => {
            return Err(e);
        },
    };
    Ok(compare_consecutive_presence_claims_v1(&first, &second))
}

/// A relation claim compared with itself is a duplicate.
pub proof fn lemma_compare_relation_claims_reflexive(claim: (Seq<u8>, Seq<u8>))
    ensures
        compare_relation_claims(claim, claim) == ConsecutivePresenceClaimComparisonV1::Duplicate,
{
}

/// Relation claim comparison does not depend on the order of the two claims.
pub proof fn lemma_compare_relation_claims_symmetric(
    first: (Seq<u8>, Seq<u8>),
    second: (Seq<u8>, Seq<u8>),
)
    ensures
        compare_relation_claims(first, second) == compare_relation_claims(second, first),
{
}

/// Two relation claims are duplicates exactly when both transcripts agree,
/// and contradict exactly when only the positions agree.
pub proof fn lemma_compare_relation_claims_cases(
    first: (Seq<u8>, Seq<u8>),
    second: (Seq<u8>, Seq<u8>),
)
    ensures
        (compare_relation_claims(first, second) == ConsecutivePresenceClaimComparisonV1::Duplicate)
            <==> (first == second),
        (compare_relation_claims(first, second)
            == ConsecutivePresenceClaimComparisonV1::Contradiction) <==> (first.0 == second.0
            && first.1 != second.1),
{
}

/// An ordered transcript determines its two endpoint transcripts and their
/// order: equal transcripts under one magic have equal previous and equal
/// current parts, so swapping or changing either sample changes the result.
pub proof fn lemma_ordered_transcript_injective(
    magic: Seq<u8>,
    previous1: Seq<u8>,
    current1: Seq<u8>,
    previous2: Seq<u8>,
    current2: Seq<u8>,
)
    requires
        previous1.len() <= u32::MAX,
        current1.len() <= u32::MAX,
        previous2.len() <= u32::MAX,
        current2.len() <= u32::MAX,
        ordered_transcript(magic, previous1, current1) == ordered_transcript(
            magic,
            previous2,
            current2,
        ),
    ensures
        previous1 == previous2,
        current1 == current2,
{
    let t = ordered_transcript(magic, previous1, current1);
    let head: int = (magic.len() + CONSECUTIVE_PRESENCE_CLAIM_V1_DOMAIN@.len() + 4) as int;
    lemma_be_u32(CONSECUTIVE_PRESENCE_CLAIM_TRANSCRIPT_V1_VERSION);
    lemma_be_u32(previous1.len() as u32);
    lemma_be_u32(previous2.len() as u32);
    lemma_be_u32(current1.len() as u32);
    lemma_be_u32(current2.len() as u32);
    let prefix = magic + CONSECUTIVE_PRESENCE_CLAIM_V1_DOMAIN@ + be_u32(
        CONSECUTIVE_PRESENCE_CLAIM_TRANSCRIPT_V1_VERSION,
    );
    assert(prefix.len() == head);
    let rest1 = be_u32(previous1.len() as u32) + previous1 + be_u32(current1.len() as u32)
        + current1;
    let rest2 = be_u32(previous2.len() as u32) + previous2 + be_u32(current2.len() as u32)
        + current2;
    assert(t =~= prefix + rest1);
    assert(ordered_transcript(magic, previous2, current2) =~= prefix + rest2);
    assert(rest1 =~= t.subrange(head, t.len() as int));
    assert(rest2 =~= t.subrange(head, t.len() as int));
    assert(rest1.subrange(0, 4) =~= be_u32(previous1.len() as u32));
    assert(rest2.subrange(0, 4) =~= be_u32(previous2.len() as u32));
    assert(previous1.len() == previous2.len());
    let n = previous1.len() as int;
    assert(rest1.subrange(4, 4 + n) =~= previous1);
    assert(rest2.subrange(4, 4 + n) =~= previous2);
    assert(rest1.subrange(4 + n, 8 + n) =~= be_u32(current1.len() as u32));
    assert(rest2.subrange(4 + n, 8 + n) =~= be_u32(current2.len() as u32));
    assert(current1.len() == current2.len());
    assert(rest1.subrange(8 + n, rest1.len() as int) =~= current1);
    assert(rest2.subrange(8 + n, rest2.len() as int) =~= current2);
}

} // verus!
