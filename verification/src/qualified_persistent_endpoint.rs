//! Issuer-qualified persistent endpoint samples: the producer of canonical
//! endpoint payloads from one qualified live observation, and the exact match
//! between a live observation and a decoded canonical sample.
//!
//! Canonical bytes are representation, not issuer authority. The live
//! observation itself belongs to the physics crate; this module receives its
//! stamp and values as plain data.
use vstd::prelude::*;
use crate::be_bytes::bytes_equal;
use crate::endpoint_sample_codec::{
    array_word, arrays_shaped, endpoint_sample_outcome, lemma_endpoint_payload_reads_back, encode_endpoint_payload_fields_v1, endpoint_payload_len_outcome,
    endpoint_payload_len_v1, endpoint_payload_v1, arrays_view, CanonicalEndpointMembershipV1,
    DecodedEndpointSampleV1, EndpointSampleCodecV1Error, EndpointSampleModelV1,
    ARRAY_GROUPS, ANCHOR_TRANSLATION_GROUP, CENTER_OFFSET_GROUP, ENDPOINT_SAMPLE_SESSION_BINDING_FRAME_V1_LEN,
    HALF_EXTENTS_GROUP, OFFSET_FROM_CENTER_GROUP, REGION_CENTER_GROUP, TARGET_TRANSLATION_GROUP,
};
use crate::evidence_session::QualifiedEvidenceSessionBinding;
use crate::evidence_session_binding_codec::{
    binding_fields_admissible_v1, binding_frame_outcome_v1, binding_payload_v1,
    lemma_binding_payload_decodes_to_fields, SessionBindingFieldsV1,
};
use crate::frame::EvidenceFrameKindV1;

verus! {

/// Identity of one physics body as a live endpoint observation reports it.
#[derive(Copy, Clone, Debug, PartialEq, Eq, Structural)]
pub struct EndpointBodySubjectV1 {
    pub physical_authority_id: u128,
    pub world_generation_id: u128,
    pub net_id: u64,
}

/// The plain values of one issuer-qualified stamped endpoint-box observation:
/// the qualified step stamp, the observed target and anchor bodies, the anchor
/// the region was specified against, the membership verdict, and the IEEE-754
/// bit patterns of the per-axis region and translation values.
#[derive(Copy, Clone, Debug)]
pub struct QualifiedEndpointObservationV1<const D: usize> {
    pub stamp_physical_authority_id: u128,
    pub stamp_world_generation_id: u128,
    pub stamp_temporal_incarnation_id: u64,
    pub step_index: u64,
    pub target: EndpointBodySubjectV1,
    pub anchor: EndpointBodySubjectV1,
    pub region_anchor: EndpointBodySubjectV1,
    pub membership: CanonicalEndpointMembershipV1,
    pub center_offset_bits: [u64; D],
    pub half_extent_bits: [u64; D],
    pub target_translation_bits: [u64; D],
    pub anchor_translation_bits: [u64; D],
    pub region_center_bits: [u64; D],
    pub offset_from_center_bits: [u64; D],
}

/// The six per-axis arrays of an observation, in canonical payload order.
pub open spec fn observation_arrays<const D: usize>(token: QualifiedEndpointObservationV1<D>) -> Seq<
    Seq<u64>,
> {
    seq![
        token.center_offset_bits@,
        token.half_extent_bits@,
        token.target_translation_bits@,
        token.anchor_translation_bits@,
        token.region_center_bits@,
        token.offset_from_center_bits@,
    ]
}

/// The stamp of `token` names the live incarnation bound by `binding`.
pub open spec fn stamp_matches_binding<const D: usize>(
    binding: QualifiedEvidenceSessionBinding,
    token: QualifiedEndpointObservationV1<D>,
) -> bool {
    &&& token.stamp_physical_authority_id == binding.spec_physical_authority_id()
    &&& token.stamp_world_generation_id == binding.spec_world_generation_id()
    &&& token.stamp_temporal_incarnation_id == binding.spec_temporal_incarnation_id()
}

/// The observation is internally consistent: a qualified (non-zero) step,
/// target and anchor from the stamped authority and generation, the region
/// specified against the observed anchor, and distinct target and anchor.
pub open spec fn observation_consistent<const D: usize>(token: QualifiedEndpointObservationV1<D>) -> bool {
    &&& token.step_index != 0
    &&& token.target.physical_authority_id == token.stamp_physical_authority_id
    &&& token.target.world_generation_id == token.stamp_world_generation_id
    &&& token.anchor.physical_authority_id == token.stamp_physical_authority_id
    &&& token.anchor.world_generation_id == token.stamp_world_generation_id
    &&& token.region_anchor == token.anchor
    &&& token.target != token.anchor
}

/// What `encode_qualified_endpoint_token_v1` yields: the canonical payload of
/// the observation, or the first failed check in the producer's order.
pub open spec fn qualified_token_payload_outcome<F, const D: usize>(
    binding: QualifiedEvidenceSessionBinding,
    token: QualifiedEndpointObservationV1<D>,
    session_frame: Seq<u8>,
    payload_limit: usize,
) -> Result<Seq<u8>, EndpointSampleCodecV1Error<F>> {
    match endpoint_payload_len_outcome::<F>(D, payload_limit) {
        Err(e) => Err(e),
        Ok(_) => {
            if !stamp_matches_binding(binding, token) {
                Err(EndpointSampleCodecV1Error::QualifiedSessionMismatch)
            } else if !observation_consistent(token) {
                Err(EndpointSampleCodecV1Error::QualifiedObservationInvariant)
            } else if session_frame.len() != ENDPOINT_SAMPLE_SESSION_BINDING_FRAME_V1_LEN {
                Err(
                    EndpointSampleCodecV1Error::SessionBindingFrameLength {
                        actual: session_frame.len() as usize,
                    },
                )
            } else {
                Ok(
                    endpoint_payload_v1(
                        D as u16,
                        session_frame,
                        token.step_index,
                        token.target.net_id,
                        token.anchor.net_id,
                        token.membership,
                        observation_arrays(token),
                    ),
                )
            }
        },
    }
}

/// Canonical endpoint-sample payload for one qualified live observation,
/// captured through the session bound by `binding`. `session_frame` is the
/// framed canonical encoding of that binding and `payload_limit` the envelope's
/// payload limit; framing the returned payload is the envelope encoder's work.
pub fn encode_qualified_endpoint_token_v1<F, const D: usize>(
    binding: &QualifiedEvidenceSessionBinding,
    token: &QualifiedEndpointObservationV1<D>,
    session_frame: &[u8],
    payload_limit: usize,
) -> (res: Result<Vec<u8>, EndpointSampleCodecV1Error<F>>)
    ensures
        match res {
            Ok(p) => qualified_token_payload_outcome::<F, D>(
                *binding,
                *token,
                session_frame@,
                payload_limit,
            ) == Ok::<Seq<u8>, EndpointSampleCodecV1Error<F>>(p@),
            Err(e) => qualified_token_payload_outcome::<F, D>(
                *binding,
                *token,
                session_frame@,
                payload_limit,
            ) == Err::<Seq<u8>, EndpointSampleCodecV1Error<F>>(e),
        },
{
    let expected_len = match endpoint_payload_len_v1::<F>(D, payload_limit) {
        Ok(len) => len,
        Err(e) => return Err(e),
    };
    let dimension = D as u16;
    if binding.physical_authority_id() != token.stamp_physical_authority_id
        || binding.world_generation_id() != token.stamp_world_generation_id
        || binding.temporal_incarnation_id() != token.stamp_temporal_incarnation_id {
        return Err(EndpointSampleCodecV1Error::QualifiedSessionMismatch);
    }
    if token.step_index == 0 {
        return Err(EndpointSampleCodecV1Error::QualifiedObservationInvariant);
    }
    if token.target.physical_authority_id != token.stamp_physical_authority_id
        || token.target.world_generation_id != token.stamp_world_generation_id
        || token.anchor.physical_authority_id != token.stamp_physical_authority_id
        || token.anchor.world_generation_id != token.stamp_world_generation_id
        || token.region_anchor != token.anchor || token.target == token.anchor {
        return Err(EndpointSampleCodecV1Error::QualifiedObservationInvariant);
    }
    if session_frame.len() != ENDPOINT_SAMPLE_SESSION_BINDING_FRAME_V1_LEN {
        return Err(EndpointSampleCodecV1Error::SessionBindingFrameLength { actual: session_frame.len() });
    }
    let arrays: [&[u64]; ARRAY_GROUPS] = [
        token.center_offset_bits.as_slice(),
        token.half_extent_bits.as_slice(),
        token.target_translation_bits.as_slice(),
        token.anchor_translation_bits.as_slice(),
        token.region_center_bits.as_slice(),
        token.offset_from_center_bits.as_slice(),
    ];
    assert(arrays_view(arrays) =~= observation_arrays(*token));
    let payload = encode_endpoint_payload_fields_v1(
        dimension,
        session_frame,
        token.step_index,
        token.target.net_id,
        token.anchor.net_id,
        token.membership,
        arrays,
        expected_len,
    );
    Ok(payload)
}

/// Why an issuer-qualified persistent endpoint sample could not be formed.
/// `EndpointCodec` carries a producer or decoder refusal of the canonical frame;
/// the other variants name the first field in which the live observation and
/// the decoded canonical sample disagree.
#[derive(Clone, Debug, PartialEq, Eq)]
pub enum QualifiedPersistentEndpointSampleV1Error<F> {
    EndpointCodec(EndpointSampleCodecV1Error<F>),
    DimensionMismatch { expected: usize, actual: usize },
    SessionMismatch,
    StepMismatch { live: u64, canonical: u64 },
    TargetMismatch { live: u64, canonical: u64 },
    AnchorMismatch { live: u64, canonical: u64 },
    MembershipMismatch,
    CenterOffsetMismatch { axis: usize },
    HalfExtentMismatch { axis: usize },
    TargetTranslationMismatch { axis: usize },
    AnchorTranslationMismatch { axis: usize },
    RegionCenterMismatch { axis: usize },
    OffsetFromCenterMismatch { axis: usize },
    DecodedInvariant,
}

/// The decoded session-binding fields are exactly those of `binding`.
pub open spec fn session_fields_match(
    binding: QualifiedEvidenceSessionBinding,
    decoded: SessionBindingFieldsV1,
) -> bool {
    &&& decoded.session_id == binding.spec_session_id()
    &&& decoded.physical_authority == binding.spec_physical_authority_id()
    &&& decoded.world_generation == binding.spec_world_generation_id()
    &&& decoded.temporal_incarnation == binding.spec_temporal_incarnation_id()
    &&& decoded.profile_code == binding.spec_profile().spec_code()
}

/// The first disagreeing value array on `axis`, in the order center offset,
/// half extent, target translation, anchor translation, region center, offset
/// from center.
pub open spec fn axis_mismatch<F, const D: usize>(
    token: QualifiedEndpointObservationV1<D>,
    decoded: EndpointSampleModelV1,
    axis: int,
) -> Option<QualifiedPersistentEndpointSampleV1Error<F>> {
    let dim = decoded.dimension as int;
    let p = decoded.payload;
    let a = axis as usize;
    if array_word(p, dim, CENTER_OFFSET_GROUP as int, axis) != token.center_offset_bits@[axis] {
        Some(QualifiedPersistentEndpointSampleV1Error::CenterOffsetMismatch { axis: a })
    } else if array_word(p, dim, HALF_EXTENTS_GROUP as int, axis) != token.half_extent_bits@[axis] {
        Some(QualifiedPersistentEndpointSampleV1Error::HalfExtentMismatch { axis: a })
    } else if array_word(p, dim, TARGET_TRANSLATION_GROUP as int, axis)
        != token.target_translation_bits@[axis] {
        Some(QualifiedPersistentEndpointSampleV1Error::TargetTranslationMismatch { axis: a })
    } else if array_word(p, dim, ANCHOR_TRANSLATION_GROUP as int, axis)
        != token.anchor_translation_bits@[axis] {
        Some(QualifiedPersistentEndpointSampleV1Error::AnchorTranslationMismatch { axis: a })
    } else if array_word(p, dim, REGION_CENTER_GROUP as int, axis) != token.region_center_bits@[axis] {
        Some(QualifiedPersistentEndpointSampleV1Error::RegionCenterMismatch { axis: a })
    } else if array_word(p, dim, OFFSET_FROM_CENTER_GROUP as int, axis)
        != token.offset_from_center_bits@[axis] {
        Some(QualifiedPersistentEndpointSampleV1Error::OffsetFromCenterMismatch { axis: a })
    } else {
        None
    }
}

/// The first disagreeing axis from `axis` on.
pub open spec fn first_axis_mismatch<F, const D: usize>(
    token: QualifiedEndpointObservationV1<D>,
    decoded: EndpointSampleModelV1,
    axis: int,
) -> Option<QualifiedPersistentEndpointSampleV1Error<F>>
    decreases D - axis,
{
    if axis < 0 || axis >= D {
        None
    } else {
        match axis_mismatch::<F, D>(token, decoded, axis) {
            Some(e) => Some(e),
            None => first_axis_mismatch::<F, D>(token, decoded, axis + 1),
        }
    }
}

/// What `ensure_exact_match` yields: `Ok` exactly when the decoded sample
/// carries the session, stamp, identities, membership and every per-axis value
/// of the live observation; otherwise the first disagreement.
pub open spec fn exact_match_outcome<F, const D: usize>(
    binding: QualifiedEvidenceSessionBinding,
    token: QualifiedEndpointObservationV1<D>,
    decoded: EndpointSampleModelV1,
) -> Result<(), QualifiedPersistentEndpointSampleV1Error<F>> {
    if decoded.dimension != D {
        Err(
            QualifiedPersistentEndpointSampleV1Error::DimensionMismatch {
                expected: D,
                actual: decoded.dimension as usize,
            },
        )
    } else if !session_fields_match(binding, decoded.session) || !stamp_matches_binding(
        binding,
        token,
    ) {
        Err(QualifiedPersistentEndpointSampleV1Error::SessionMismatch)
    } else if decoded.step_index != token.step_index {
        Err(
            QualifiedPersistentEndpointSampleV1Error::StepMismatch {
                live: token.step_index,
                canonical: decoded.step_index,
            },
        )
    } else if decoded.target_net_id != token.target.net_id {
        Err(
            QualifiedPersistentEndpointSampleV1Error::TargetMismatch {
                live: token.target.net_id,
                canonical: decoded.target_net_id,
            },
        )
    } else if decoded.anchor_net_id != token.anchor.net_id {
        Err(
            QualifiedPersistentEndpointSampleV1Error::AnchorMismatch {
                live: token.anchor.net_id,
                canonical: decoded.anchor_net_id,
            },
        )
    } else if decoded.membership != token.membership {
        Err(QualifiedPersistentEndpointSampleV1Error::MembershipMismatch)
    } else {
        match first_axis_mismatch::<F, D>(token, decoded, 0) {
            Some(e) => Err(e),
            None => Ok(()),
        }
    }
}

/// Checks that a decoded canonical endpoint sample is exactly the live
/// observation `token` captured through the session bound by `binding`.
pub fn ensure_exact_match<F, const D: usize>(
    binding: &QualifiedEvidenceSessionBinding,
    token: &QualifiedEndpointObservationV1<D>,
    decoded: &DecodedEndpointSampleV1<'_>,
) -> (res: Result<(), QualifiedPersistentEndpointSampleV1Error<F>>)
    ensures
        res == exact_match_outcome::<F, D>(*binding, *token, decoded@),
{
    let dimension = decoded.dimension();
    if dimension != D {
        return Err(
            QualifiedPersistentEndpointSampleV1Error::DimensionMismatch {
                expected: D,
                actual: dimension,
            },
        );
    }
    let decoded_session = decoded.session_binding();
    let session_id = binding.session_id();
    if !bytes_equal(decoded_session.session_id_bytes().as_slice(), session_id.as_bytes().as_slice())
        || decoded_session.physical_authority_raw() != binding.physical_authority_id()
        || decoded_session.world_generation_raw() != binding.world_generation_id()
        || decoded_session.temporal_incarnation_raw() != binding.temporal_incarnation_id()
        || decoded_session.session_profile_code() != binding.profile().code() {
        return Err(QualifiedPersistentEndpointSampleV1Error::SessionMismatch);
    }
    if token.stamp_physical_authority_id != binding.physical_authority_id()
        || token.stamp_world_generation_id != binding.world_generation_id()
        || token.stamp_temporal_incarnation_id != binding.temporal_incarnation_id() {
        return Err(QualifiedPersistentEndpointSampleV1Error::SessionMismatch);
    }
    if decoded.step_index() != token.step_index {
        return Err(
            QualifiedPersistentEndpointSampleV1Error::StepMismatch {
                live: token.step_index,
                canonical: decoded.step_index(),
            },
        );
    }
    if decoded.target_net_id() != token.target.net_id {
        return Err(
            QualifiedPersistentEndpointSampleV1Error::TargetMismatch {
                live: token.target.net_id,
                canonical: decoded.target_net_id(),
            },
        );
    }
    if decoded.anchor_net_id() != token.anchor.net_id {
        return Err(
            QualifiedPersistentEndpointSampleV1Error::AnchorMismatch {
                live: token.anchor.net_id,
                canonical: decoded.anchor_net_id(),
            },
        );
    }
    if decoded.membership() != token.membership {
        return Err(QualifiedPersistentEndpointSampleV1Error::MembershipMismatch);
    }
    let mut axis: usize = 0;
    while axis < D
        invariant
            axis <= D,
            decoded@.dimension == D,
            exact_match_outcome::<F, D>(*binding, *token, decoded@) == match first_axis_mismatch::<
                F,
                D,
            >(*token, decoded@, 0) {
                Some(e) => Err(e),
                None => Ok(()),
            },
            first_axis_mismatch::<F, D>(*token, decoded@, 0) == first_axis_mismatch::<F, D>(
                *token,
                decoded@,
                axis as int,
            ),
        decreases D - axis,
    {
        let found: Option<QualifiedPersistentEndpointSampleV1Error<F>> =
            if decoded.center_offset_bits(axis) != Some(token.center_offset_bits[axis]) {
            Some(QualifiedPersistentEndpointSampleV1Error::CenterOffsetMismatch { axis })
        } else if decoded.half_extent_bits(axis) != Some(token.half_extent_bits[axis]) {
            Some(QualifiedPersistentEndpointSampleV1Error::HalfExtentMismatch { axis })
        } else if decoded.target_translation_bits(axis) != Some(token.target_translation_bits[axis]) {
            Some(QualifiedPersistentEndpointSampleV1Error::TargetTranslationMismatch { axis })
        } else if decoded.anchor_translation_bits(axis) != Some(token.anchor_translation_bits[axis]) {
            Some(QualifiedPersistentEndpointSampleV1Error::AnchorTranslationMismatch { axis })
        } else if decoded.region_center_bits(axis) != Some(token.region_center_bits[axis]) {
            Some(QualifiedPersistentEndpointSampleV1Error::RegionCenterMismatch { axis })
        } else if decoded.offset_from_center_bits(axis) != Some(token.offset_from_center_bits[axis]) {
            Some(QualifiedPersistentEndpointSampleV1Error::OffsetFromCenterMismatch { axis })
        } else {
            None
        };
        assert(found == axis_mismatch::<F, D>(*token, decoded@, axis as int));
        if let Some(e) = found {
            assert(first_axis_mismatch::<F, D>(*token, decoded@, axis as int) == Some(e));
            return Err(e);
        }
        axis = axis + 1;
    }
    Ok(())
}

/// The fields of `binding` as plain values.
pub open spec fn binding_fields(binding: QualifiedEvidenceSessionBinding) -> SessionBindingFieldsV1 {
    SessionBindingFieldsV1 {
        session_id: binding.spec_session_id(),
        physical_authority: binding.spec_physical_authority_id(),
        world_generation: binding.spec_world_generation_id(),
        temporal_incarnation: binding.spec_temporal_incarnation_id(),
        profile_code: binding.spec_profile().spec_code(),
    }
}

proof fn lemma_no_axis_mismatch<F, const D: usize>(
    token: QualifiedEndpointObservationV1<D>,
    decoded: EndpointSampleModelV1,
    axis: int,
)
    requires
        decoded.dimension == D,
        0 <= axis,
        forall|g: int, a: int|
            0 <= g < ARRAY_GROUPS && 0 <= a < D ==> #[trigger] array_word(
                decoded.payload,
                D as int,
                g,
                a,
            ) == observation_arrays(token)[g][a],
    ensures
        first_axis_mismatch::<F, D>(token, decoded, axis) is None,
    decreases D - axis,
{
    if axis < D {
        assert(array_word(decoded.payload, D as int, CENTER_OFFSET_GROUP as int, axis)
            == observation_arrays(token)[CENTER_OFFSET_GROUP as int][axis]);
        assert(array_word(decoded.payload, D as int, HALF_EXTENTS_GROUP as int, axis)
            == observation_arrays(token)[HALF_EXTENTS_GROUP as int][axis]);
        assert(array_word(decoded.payload, D as int, TARGET_TRANSLATION_GROUP as int, axis)
            == observation_arrays(token)[TARGET_TRANSLATION_GROUP as int][axis]);
        assert(array_word(decoded.payload, D as int, ANCHOR_TRANSLATION_GROUP as int, axis)
            == observation_arrays(token)[ANCHOR_TRANSLATION_GROUP as int][axis]);
        assert(array_word(decoded.payload, D as int, REGION_CENTER_GROUP as int, axis)
            == observation_arrays(token)[REGION_CENTER_GROUP as int][axis]);
        assert(array_word(decoded.payload, D as int, OFFSET_FROM_CENTER_GROUP as int, axis)
            == observation_arrays(token)[OFFSET_FROM_CENTER_GROUP as int][axis]);
        lemma_no_axis_mismatch::<F, D>(token, decoded, axis + 1);
    }
}

/// A canonical sample produced from a live observation, once its frame is
/// admitted by the decoder with the nested frame carrying the binding's
/// canonical payload, matches that observation exactly.
pub proof fn lemma_produced_sample_matches_observation<F, const D: usize>(
    binding: QualifiedEvidenceSessionBinding,
    token: QualifiedEndpointObservationV1<D>,
    session_frame: Seq<u8>,
    payload_limit: usize,
    sums: Seq<u64>,
    differences: Seq<u64>,
)
    requires
        binding_fields_admissible_v1(binding_fields(binding)),
        qualified_token_payload_outcome::<F, D>(binding, token, session_frame, payload_limit) is Ok,
        endpoint_sample_outcome::<F>(
            EvidenceFrameKindV1::EndpointSample,
            qualified_token_payload_outcome::<F, D>(
                binding,
                token,
                session_frame,
                payload_limit,
            )->Ok_0,
            payload_limit,
            Ok((EvidenceFrameKindV1::EvidenceSessionBinding, binding_payload_v1(binding_fields(binding)))),
            sums,
            differences,
        ) is Ok,
    ensures
        exact_match_outcome::<F, D>(
            binding,
            token,
            endpoint_sample_outcome::<F>(
                EvidenceFrameKindV1::EndpointSample,
                qualified_token_payload_outcome::<F, D>(
                    binding,
                    token,
                    session_frame,
                    payload_limit,
                )->Ok_0,
                payload_limit,
                Ok((EvidenceFrameKindV1::EvidenceSessionBinding, binding_payload_v1(binding_fields(binding)))),
                sums,
                differences,
            )->Ok_0,
        ) == Ok::<(), QualifiedPersistentEndpointSampleV1Error<F>>(()),
{
    let p = qualified_token_payload_outcome::<F, D>(binding, token, session_frame, payload_limit)->Ok_0;
    let session: Result<(EvidenceFrameKindV1, Seq<u8>), F> = Ok(
        (EvidenceFrameKindV1::EvidenceSessionBinding, binding_payload_v1(binding_fields(binding))),
    );
    let m = endpoint_sample_outcome::<F>(
        EvidenceFrameKindV1::EndpointSample,
        p,
        payload_limit,
        session,
        sums,
        differences,
    )->Ok_0;
    let arrays = observation_arrays(token);
    assert(arrays_shaped(arrays, D as int));
    lemma_endpoint_payload_reads_back(
        D as u16,
        session_frame,
        token.step_index,
        token.target.net_id,
        token.anchor.net_id,
        token.membership,
        arrays,
    );
    lemma_binding_payload_decodes_to_fields::<F>(binding_fields(binding));
    reveal(endpoint_sample_outcome);
    assert(m.session == binding_fields(binding));
    assert(m.dimension == D);
    assert(m.payload == p);
    lemma_no_axis_mismatch::<F, D>(token, m, 0);
}

/// Whether the decoded sample carries, on every axis, the six values the
/// observation reports, group by group.
pub open spec fn per_axis_values_equal<const D: usize>(
    token: QualifiedEndpointObservationV1<D>,
    decoded: EndpointSampleModelV1,
) -> bool {
    forall|a: int|
        0 <= a < D ==> {
            &&& #[trigger] array_word(decoded.payload, D as int, 0, a) == token.center_offset_bits@[a]
            &&& array_word(decoded.payload, D as int, 1, a) == token.half_extent_bits@[a]
            &&& array_word(decoded.payload, D as int, 2, a) == token.target_translation_bits@[a]
            &&& array_word(decoded.payload, D as int, 3, a) == token.anchor_translation_bits@[a]
            &&& array_word(decoded.payload, D as int, 4, a) == token.region_center_bits@[a]
            &&& array_word(decoded.payload, D as int, 5, a) == token.offset_from_center_bits@[a]
        }
}

proof fn lemma_first_axis_mismatch_none<F, const D: usize>(
    token: QualifiedEndpointObservationV1<D>,
    decoded: EndpointSampleModelV1,
    axis: int,
)
    requires
        decoded.dimension == D,
        0 <= axis <= D,
    ensures
        first_axis_mismatch::<F, D>(token, decoded, axis) is None <==> forall|a: int|
            axis <= a < D ==> #[trigger] axis_mismatch::<F, D>(token, decoded, a) is None,
    decreases D - axis,
{
    if axis < D {
        lemma_first_axis_mismatch_none::<F, D>(token, decoded, axis + 1);
        if first_axis_mismatch::<F, D>(token, decoded, axis) is None {
            assert forall|a: int| axis <= a < D implies #[trigger] axis_mismatch::<F, D>(
                token,
                decoded,
                a,
            ) is None by {
                if a > axis {
                }
            }
        }
    }
}

/// Soundness and completeness of the exact match: the check passes exactly
/// when the decoded sample has the observation's dimension, the binding's
/// session fields, a stamp naming the bound incarnation, the observed step,
/// target and anchor net ids and membership, and every per-axis value of the
/// observation.
pub proof fn lemma_exact_match_iff_observation<F, const D: usize>(
    binding: QualifiedEvidenceSessionBinding,
    token: QualifiedEndpointObservationV1<D>,
    decoded: EndpointSampleModelV1,
)
    ensures
        exact_match_outcome::<F, D>(binding, token, decoded) is Ok <==> {
            &&& decoded.dimension == D
            &&& decoded.session.session_id == binding.spec_session_id()
            &&& decoded.session.physical_authority == binding.spec_physical_authority_id()
            &&& decoded.session.world_generation == binding.spec_world_generation_id()
            &&& decoded.session.temporal_incarnation == binding.spec_temporal_incarnation_id()
            &&& decoded.session.profile_code == binding.spec_profile().spec_code()
            &&& token.stamp_physical_authority_id == binding.spec_physical_authority_id()
            &&& token.stamp_world_generation_id == binding.spec_world_generation_id()
            &&& token.stamp_temporal_incarnation_id == binding.spec_temporal_incarnation_id()
            &&& decoded.step_index == token.step_index
            &&& decoded.target_net_id == token.target.net_id
            &&& decoded.anchor_net_id == token.anchor.net_id
            &&& decoded.membership == token.membership
            &&& per_axis_values_equal(token, decoded)
        },
{
    if decoded.dimension == D {
        lemma_first_axis_mismatch_none::<F, D>(token, decoded, 0);
        if per_axis_values_equal(token, decoded) {
            assert forall|a: int| 0 <= a < D implies #[trigger] axis_mismatch::<F, D>(
                token,
                decoded,
                a,
            ) is None by {
                assert(array_word(decoded.payload, D as int, 0, a) == token.center_offset_bits@[a]);
            }
        }
        if first_axis_mismatch::<F, D>(token, decoded, 0) is None {
            assert forall|a: int| 0 <= a < D implies {
                &&& #[trigger] array_word(decoded.payload, D as int, 0, a) == token.center_offset_bits@[a]
                &&& array_word(decoded.payload, D as int, 1, a) == token.half_extent_bits@[a]
                &&& array_word(decoded.payload, D as int, 2, a) == token.target_translation_bits@[a]
                &&& array_word(decoded.payload, D as int, 3, a) == token.anchor_translation_bits@[a]
                &&& array_word(decoded.payload, D as int, 4, a) == token.region_center_bits@[a]
                &&& array_word(decoded.payload, D as int, 5, a) == token.offset_from_center_bits@[a]
            } by {
                assert(axis_mismatch::<F, D>(token, decoded, a) is None);
            }
        }
    }
}

} // verus!
