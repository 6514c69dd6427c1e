//! Canonical persistent endpoint-membership samples.
//!
//! Decoding returns untrusted canonical semantics and independently rechecks
//! geometry/result consistency. The decoder receives the outer frame as the
//! envelope decoder hands it over, the envelope decoder's result on the nested
//! session-binding frame, and the per-axis IEEE-754 sums and differences that
//! the region-center and offset checks compare against.
use crate::be_bytes::{
    be_u16, be_u32, be_u64, lemma_be_u16, lemma_be_u32, lemma_be_u64, push_be_u16, push_be_u32,
    push_be_u64, push_bytes, read_be_u16, read_be_u32, read_be_u64, u16_from_be, u32_from_be,
    u64_from_be, lemma_u16_from_be, lemma_u32_from_be, lemma_u64_from_be,
};
use crate::evidence_session_binding_codec::{
    binding_frame_outcome_v1, decode_evidence_session_binding_v1, DecodedEvidenceSessionBindingV1,
    EvidenceSessionBindingCodecV1Error, SessionBindingFieldsV1,
};
use crate::evidence_session::EVIDENCE_SESSION_ID_LEN;
use crate::frame::{EvidenceFrameKindV1, EvidenceFrameV1};
use crate::ieee_bits::{
    f64_bits_finite, f64_bits_magnitude, f64_bits_magnitude_le, f64_bits_negative_zero,
    f64_bits_not_positive, f64_magnitude_bits, is_finite_f64_bits, is_not_positive_f64_bits,
    F64_SIGN_BIT,
};
use vstd::prelude::*;
use vstd::slice::slice_subrange;

verus! {

pub const ENDPOINT_SAMPLE_PAYLOAD_V1_VERSION: u32 = 1;

pub const ENDPOINT_SAMPLE_SESSION_BINDING_FRAME_V1_LEN: usize = 143;

pub const ENDPOINT_SAMPLE_FIXED_PREFIX_V1_LEN: usize = 176;

pub const ENDPOINT_SAMPLE_PER_AXIS_V1_LEN: usize = 48;

pub const SESSION_FRAME_START: usize = 8;

pub const STEP_INDEX_START: usize = 151;

pub const TARGET_NET_ID_START: usize = 159;

pub const ANCHOR_NET_ID_START: usize = 167;

pub const MEMBERSHIP_START: usize = 175;

pub const ARRAYS_START: usize = 176;

pub const CENTER_OFFSET_GROUP: usize = 0;

pub const HALF_EXTENTS_GROUP: usize = 1;

pub const TARGET_TRANSLATION_GROUP: usize = 2;

pub const ANCHOR_TRANSLATION_GROUP: usize = 3;

pub const REGION_CENTER_GROUP: usize = 4;

pub const OFFSET_FROM_CENTER_GROUP: usize = 5;

pub const ARRAY_GROUPS: usize = 6;

#[derive(Copy, Clone, Debug, Hash, PartialEq, Eq, Structural)]
pub enum CanonicalEndpointMembershipV1 {
    Outside,
    Inside,
}

impl CanonicalEndpointMembershipV1 {
    pub open spec fn spec_code(self) -> u8 {
        match self {
            CanonicalEndpointMembershipV1::Outside => 0,
            CanonicalEndpointMembershipV1::Inside => 1,
        }
    }

    pub open spec fn spec_from_code(code: u8) -> Option<CanonicalEndpointMembershipV1> {
        if code == 0 {
            Some(CanonicalEndpointMembershipV1::Outside)
        } else if code == 1 {
            Some(CanonicalEndpointMembershipV1::Inside)
        } else {
            None
        }
    }

    pub fn code(self) -> (r: u8)
        ensures
            r == self.spec_code(),
    {
        match self {
            CanonicalEndpointMembershipV1::Outside => 0,
            CanonicalEndpointMembershipV1::Inside => 1,
        }
    }

    pub fn from_code(code: u8) -> (r: Option<CanonicalEndpointMembershipV1>)
        ensures
            r == Self::spec_from_code(code),
    {
        match code {
            0 => Some(CanonicalEndpointMembershipV1::Outside),
            1 => Some(CanonicalEndpointMembershipV1::Inside),
            _ => None,
        }
    }
}

#[derive(Clone, Debug, PartialEq, Eq)]
pub enum EndpointSampleCodecV1Error<F> {
    Frame(F),
    SessionBinding(EvidenceSessionBindingCodecV1Error<F>),
    WrongFrameKind { actual: EvidenceFrameKindV1 },
    PayloadTooShort { actual: usize },
    WrongPayloadLength { actual: usize, expected: usize },
    UnsupportedPayloadVersion { version: u32 },
    DimensionZero,
    DimensionOutOfRange { dimension: usize },
    SessionBindingFrameLength { actual: usize },
    QualifiedSessionMismatch,
    QualifiedObservationInvariant,
    StepIndexZero,
    SameTargetAnchorNetId { net_id: u64 },
    InvalidMembership { code: u8 },
    NonFiniteCenterOffset { axis: usize },
    NonCanonicalCenterOffsetZero { axis: usize },
    NonFiniteHalfExtent { axis: usize },
    NonPositiveHalfExtent { axis: usize },
    NonFiniteTargetTranslation { axis: usize },
    NonFiniteAnchorTranslation { axis: usize },
    NonFiniteRegionCenter { axis: usize },
    NonFiniteOffsetFromCenter { axis: usize },
    RegionCenterMismatch { axis: usize },
    OffsetFromCenterMismatch { axis: usize },
    MembershipMismatch {
        encoded: CanonicalEndpointMembershipV1,
        recomputed: CanonicalEndpointMembershipV1,
    },
}

/// Length of the payload of a `dimension`-axis endpoint sample.
pub open spec fn endpoint_payload_len(dimension: int) -> int {
    ENDPOINT_SAMPLE_FIXED_PREFIX_V1_LEN + ENDPOINT_SAMPLE_PER_AXIS_V1_LEN * dimension
}

/// Byte offset of the value of `axis` in array `group`.
pub open spec fn array_word_start(dimension: int, group: int, axis: int) -> int {
    ARRAYS_START + (group * dimension + axis) * 8
}

/// Bit pattern stored for `axis` in array `group` of a `dimension`-axis payload.
pub open spec fn array_word(p: Seq<u8>, dimension: int, group: int, axis: int) -> u64 {
    let start = array_word_start(dimension, group, axis);
    u64_from_be(p.subrange(start, start + 8))
}

/// What `endpoint_payload_len_v1` yields for a dimension and envelope payload limit.
pub open spec fn endpoint_payload_len_outcome<F>(dimension: usize, payload_limit: usize) -> Result<
    usize,
    EndpointSampleCodecV1Error<F>,
> {
    if dimension == 0 {
        Err(EndpointSampleCodecV1Error::DimensionZero)
    } else if dimension > u16::MAX || endpoint_payload_len(dimension as int) > payload_limit {
        Err(EndpointSampleCodecV1Error::DimensionOutOfRange { dimension })
    } else {
        Ok(endpoint_payload_len(dimension as int) as usize)
    }
}

/// The first failing per-axis check on the stored values of one axis, in the
/// decoder's order. `sums[axis]` and `differences[axis]` are the IEEE-754
/// results of anchor translation + center offset and target translation -
/// region center; a missing entry is a mismatch.
pub open spec fn axis_values_error<F>(
    center_offset: u64,
    half_extent: u64,
    target: u64,
    anchor: u64,
    region_center: u64,
    offset: u64,
    sums: Seq<u64>,
    differences: Seq<u64>,
    axis: int,
) -> Option<EndpointSampleCodecV1Error<F>> {
    let a = axis as usize;
    if !f64_bits_finite(center_offset) {
        Some(EndpointSampleCodecV1Error::NonFiniteCenterOffset { axis: a })
    } else if f64_bits_negative_zero(center_offset) {
        Some(EndpointSampleCodecV1Error::NonCanonicalCenterOffsetZero { axis: a })
    } else if !f64_bits_finite(half_extent) {
        Some(EndpointSampleCodecV1Error::NonFiniteHalfExtent { axis: a })
    } else if f64_bits_not_positive(half_extent) {
        Some(EndpointSampleCodecV1Error::NonPositiveHalfExtent { axis: a })
    } else if !f64_bits_finite(target) {
        Some(EndpointSampleCodecV1Error::NonFiniteTargetTranslation { axis: a })
    } else if !f64_bits_finite(anchor) {
        Some(EndpointSampleCodecV1Error::NonFiniteAnchorTranslation { axis: a })
    } else if !f64_bits_finite(region_center) {
        Some(EndpointSampleCodecV1Error::NonFiniteRegionCenter { axis: a })
    } else if !f64_bits_finite(offset) {
        Some(EndpointSampleCodecV1Error::NonFiniteOffsetFromCenter { axis: a })
    } else if axis >= sums.len() || !f64_bits_finite(sums[axis]) || sums[axis] != region_center {
        Some(EndpointSampleCodecV1Error::RegionCenterMismatch { axis: a })
    } else if axis >= differences.len() || !f64_bits_finite(differences[axis])
        || differences[axis] != offset {
        Some(EndpointSampleCodecV1Error::OffsetFromCenterMismatch { axis: a })
    } else {
        None
    }
}

/// The first failing per-axis check of `axis` of a stored payload.
pub open spec fn axis_error<F>(
    p: Seq<u8>,
    dimension: int,
    sums: Seq<u64>,
    differences: Seq<u64>,
    axis: int,
) -> Option<EndpointSampleCodecV1Error<F>> {
    axis_values_error::<F>(
        array_word(p, dimension, CENTER_OFFSET_GROUP as int, axis),
        array_word(p, dimension, HALF_EXTENTS_GROUP as int, axis),
        array_word(p, dimension, TARGET_TRANSLATION_GROUP as int, axis),
        array_word(p, dimension, ANCHOR_TRANSLATION_GROUP as int, axis),
        array_word(p, dimension, REGION_CENTER_GROUP as int, axis),
        array_word(p, dimension, OFFSET_FROM_CENTER_GROUP as int, axis),
        sums,
        differences,
        axis,
    )
}

/// The first per-axis failure among axes `from..dimension`, if any.
pub open spec fn first_axis_error<F>(
    p: Seq<u8>,
    dimension: int,
    sums: Seq<u64>,
    differences: Seq<u64>,
    from: int,
) -> Option<EndpointSampleCodecV1Error<F>>
    decreases dimension - from,
{
    if from >= dimension || from < 0 {
        None
    } else {
        match axis_error::<F>(p, dimension, sums, differences, from) {
            Some(e) => Some(e),
            None => first_axis_error::<F>(p, dimension, sums, differences, from + 1),
        }
    }
}

/// Membership recomputed from the stored geometry: inside exactly when the
/// offset from the region center lies within the half extent on every axis
/// (the closed box).
pub open spec fn recomputed_membership(p: Seq<u8>, dimension: int) -> CanonicalEndpointMembershipV1 {
    if forall|axis: int|
        0 <= axis < dimension ==> f64_bits_magnitude_le(
            #[trigger] array_word(p, dimension, OFFSET_FROM_CENTER_GROUP as int, axis),
            array_word(p, dimension, HALF_EXTENTS_GROUP as int, axis),
        ) {
        CanonicalEndpointMembershipV1::Inside
    } else {
        CanonicalEndpointMembershipV1::Outside
    }
}

/// The semantics of one admitted endpoint sample as plain values.
pub struct EndpointSampleModelV1 {
    pub session: SessionBindingFieldsV1,
    pub dimension: u16,
    pub step_index: u64,
    pub target_net_id: u64,
    pub anchor_net_id: u64,
    pub membership: CanonicalEndpointMembershipV1,
    pub payload: Seq<u8>,
}

/// The nested session-binding frame as the envelope decoder handed it over.
pub open spec fn frame_result_view<F>(r: Result<EvidenceFrameV1<'_>, F>) -> Result<
    (EvidenceFrameKindV1, Seq<u8>),
    F,
> {
    match r {
        Ok(f) => Ok((f.kind, f.payload@)),
        Err(e) => Err(e),
    }
}

/// What decoding an endpoint-sample frame yields, checks taken in order.
#[verifier::opaque]
pub open spec fn endpoint_sample_outcome<F>(
    kind: EvidenceFrameKindV1,
    p: Seq<u8>,
    payload_limit: usize,
    session: Result<(EvidenceFrameKindV1, Seq<u8>), F>,
    sums: Seq<u64>,
    differences: Seq<u64>,
) -> Result<EndpointSampleModelV1, EndpointSampleCodecV1Error<F>> {
    let version = u32_from_be(p.subrange(0, 4));
    let dimension = u16_from_be(p.subrange(4, 6));
    let session_len = u16_from_be(p.subrange(6, 8));
    let step_index = u64_from_be(p.subrange(151, 159));
    let target = u64_from_be(p.subrange(159, 167));
    let anchor = u64_from_be(p.subrange(167, 175));
    let code = p[175];
    let d = dimension as int;
    if kind != EvidenceFrameKindV1::EndpointSample {
        Err(EndpointSampleCodecV1Error::WrongFrameKind { actual: kind })
    } else if p.len() < ENDPOINT_SAMPLE_FIXED_PREFIX_V1_LEN {
        Err(EndpointSampleCodecV1Error::PayloadTooShort { actual: p.len() as usize })
    } else if version != ENDPOINT_SAMPLE_PAYLOAD_V1_VERSION {
        Err(EndpointSampleCodecV1Error::UnsupportedPayloadVersion { version })
    } else if dimension == 0 {
        Err(EndpointSampleCodecV1Error::DimensionZero)
    } else if endpoint_payload_len_outcome::<F>(dimension as usize, payload_limit) is Err {
        Err(endpoint_payload_len_outcome::<F>(dimension as usize, payload_limit)->Err_0)
    } else if p.len() != endpoint_payload_len(d) {
        Err(
            EndpointSampleCodecV1Error::WrongPayloadLength {
                actual: p.len() as usize,
                expected: endpoint_payload_len(d) as usize,
            },
        )
    } else if session_len != ENDPOINT_SAMPLE_SESSION_BINDING_FRAME_V1_LEN {
        Err(EndpointSampleCodecV1Error::SessionBindingFrameLength { actual: session_len as usize })
    } else if session is Err {
        Err(
            EndpointSampleCodecV1Error::SessionBinding(
                EvidenceSessionBindingCodecV1Error::Frame(session->Err_0),
            ),
        )
    } else if binding_frame_outcome_v1::<F>(session->Ok_0.0, session->Ok_0.1) is Err {
        Err(
            EndpointSampleCodecV1Error::SessionBinding(
                binding_frame_outcome_v1::<F>(session->Ok_0.0, session->Ok_0.1)->Err_0,
            ),
        )
    } else if step_index == 0 {
        Err(EndpointSampleCodecV1Error::StepIndexZero)
    } else if target == anchor {
        Err(EndpointSampleCodecV1Error::SameTargetAnchorNetId { net_id: target })
    } else if CanonicalEndpointMembershipV1::spec_from_code(code) is None {
        Err(EndpointSampleCodecV1Error::InvalidMembership { code })
    } else if first_axis_error::<F>(p, d, sums, differences, 0) is Some {
        Err(first_axis_error::<F>(p, d, sums, differences, 0)->Some_0)
    } else if CanonicalEndpointMembershipV1::spec_from_code(code)->Some_0 != recomputed_membership(
        p,
        d,
    ) {
        Err(
            EndpointSampleCodecV1Error::MembershipMismatch {
                encoded: CanonicalEndpointMembershipV1::spec_from_code(code)->Some_0,
                recomputed: recomputed_membership(p, d),
            },
        )
    } else {
        Ok(
            EndpointSampleModelV1 {
                session: binding_frame_outcome_v1::<F>(session->Ok_0.0, session->Ok_0.1)->Ok_0,
                dimension,
                step_index,
                target_net_id: target,
                anchor_net_id: anchor,
                membership: CanonicalEndpointMembershipV1::spec_from_code(code)->Some_0,
                payload: p,
            },
        )
    }
}

/// One endpoint-sample frame as the physics frame layer hands it over: the
/// decoded outer frame, the envelope decoder's result on the nested
/// session-binding frame (payload bytes 8..151), and for each axis the bit
/// patterns of the IEEE-754 results of anchor translation + center offset
/// (`region_center_sums`) and target translation - region center
/// (`offset_differences`). A missing per-axis entry counts as a mismatch.
pub struct EndpointSampleFrameV1<'a, F> {
    pub frame: EvidenceFrameV1<'a>,
    pub session_frame: Result<EvidenceFrameV1<'a>, F>,
    pub region_center_sums: &'a [u64],
    pub offset_differences: &'a [u64],
}

/// The nested session frame handed over is the one stored in the payload.
pub open spec fn endpoint_input_consistent<F>(input: EndpointSampleFrameV1<'_, F>) -> bool {
    input.frame.payload@.len() >= STEP_INDEX_START && input.session_frame is Ok
        ==> input.session_frame->Ok_0.bytes@ == input.frame.payload@.subrange(
        SESSION_FRAME_START as int,
        STEP_INDEX_START as int,
    )
}

/// What decoding the handed-over endpoint-sample frame yields.
pub open spec fn endpoint_input_outcome<F>(input: EndpointSampleFrameV1<'_, F>) -> Result<
    EndpointSampleModelV1,
    EndpointSampleCodecV1Error<F>,
> {
    endpoint_sample_outcome::<F>(
        input.frame.kind,
        input.frame.payload@,
        input.frame.payload_limit,
        frame_result_view(input.session_frame),
        input.region_center_sums@,
        input.offset_differences@,
    )
}

/// Untrusted, canonically decoded endpoint-membership semantics, borrowing the
/// payload it was decoded from.
#[derive(Debug)]
pub struct DecodedEndpointSampleV1<'a> {
    session_binding: DecodedEvidenceSessionBindingV1,
    dimension: u16,
    step_index: u64,
    target_net_id: u64,
    anchor_net_id: u64,
    membership: CanonicalEndpointMembershipV1,
    payload: &'a [u8],
}

impl<'a> View for DecodedEndpointSampleV1<'a> {
    type V = EndpointSampleModelV1;

    closed spec fn view(&self) -> EndpointSampleModelV1 {
        EndpointSampleModelV1 {
            session: self.session_binding@,
            dimension: self.dimension,
            step_index: self.step_index,
            target_net_id: self.target_net_id,
            anchor_net_id: self.anchor_net_id,
            membership: self.membership,
            payload: self.payload@,
        }
    }
}

impl<'a> DecodedEndpointSampleV1<'a> {
    /// A decoded sample always holds a session ID of the fixed length.
    pub proof fn lemma_session_id_len(&self)
        ensures
            self@.session.session_id.len() == EVIDENCE_SESSION_ID_LEN,
    {
        self.session_binding.lemma_session_id_len();
    }
}

/// Whether a decoding result is exactly the given outcome.
pub open spec fn endpoint_result_is<F>(
    res: Result<DecodedEndpointSampleV1<'_>, EndpointSampleCodecV1Error<F>>,
    outcome: Result<EndpointSampleModelV1, EndpointSampleCodecV1Error<F>>,
) -> bool {
    match res {
        Ok(d) => outcome == Ok::<EndpointSampleModelV1, EndpointSampleCodecV1Error<F>>(d@),
        Err(e) => outcome == Err::<EndpointSampleModelV1, EndpointSampleCodecV1Error<F>>(e),
    }
}

impl<'a> DecodedEndpointSampleV1<'a> {
    #[verifier::type_invariant]
    spec fn shape(self) -> bool {
        &&& self.dimension >= 1
        &&& self.payload@.len() == endpoint_payload_len(self.dimension as int)
    }

    pub fn session_binding(&self) -> (r: &DecodedEvidenceSessionBindingV1)
        ensures
            r@ == self@.session,
    {
        &self.session_binding
    }

    pub fn dimension(&self) -> (r: usize)
        ensures
            r == self@.dimension,
            1 <= r <= u16::MAX,
            self@.payload.len() == endpoint_payload_len(r as int),
    {
        proof {
            use_type_invariant(self);
        }
        self.dimension as usize
    }

    pub fn step_index(&self) -> (r: u64)
        ensures
            r == self@.step_index,
    {
        self.step_index
    }

    pub fn target_net_id(&self) -> (r: u64)
        ensures
            r == self@.target_net_id,
    {
        self.target_net_id
    }

    pub fn anchor_net_id(&self) -> (r: u64)
        ensures
            r == self@.anchor_net_id,
    {
        self.anchor_net_id
    }

    pub fn membership(&self) -> (r: CanonicalEndpointMembershipV1)
        ensures
            r == self@.membership,
    {
        self.membership
    }

    /// The nested session-binding frame, exactly as stored.
    pub fn session_binding_frame(&self) -> (r: &'a [u8])
        ensures
            r@ == self@.payload.subrange(
                SESSION_FRAME_START as int,
                STEP_INDEX_START as int,
            ),
    {
        proof {
            use_type_invariant(self);
        }
        slice_subrange(self.payload, SESSION_FRAME_START, STEP_INDEX_START)
    }

    pub fn center_offset_bits(&self, axis: usize) -> (r: Option<u64>)
        ensures
            r == self.spec_array_bits(CENTER_OFFSET_GROUP as int, axis as int),
    {
        self.array_bits(CENTER_OFFSET_GROUP, axis)
    }

    pub fn half_extent_bits(&self, axis: usize) -> (r: Option<u64>)
        ensures
            r == self.spec_array_bits(HALF_EXTENTS_GROUP as int, axis as int),
    {
        self.array_bits(HALF_EXTENTS_GROUP, axis)
    }

    pub fn target_translation_bits(&self, axis: usize) -> (r: Option<u64>)
        ensures
            r == self.spec_array_bits(TARGET_TRANSLATION_GROUP as int, axis as int),
    {
        self.array_bits(TARGET_TRANSLATION_GROUP, axis)
    }

    pub fn anchor_translation_bits(&self, axis: usize) -> (r: Option<u64>)
        ensures
            r == self.spec_array_bits(ANCHOR_TRANSLATION_GROUP as int, axis as int),
    {
        self.array_bits(ANCHOR_TRANSLATION_GROUP, axis)
    }

    pub fn region_center_bits(&self, axis: usize) -> (r: Option<u64>)
        ensures
            r == self.spec_array_bits(REGION_CENTER_GROUP as int, axis as int),
    {
        self.array_bits(REGION_CENTER_GROUP, axis)
    }

    pub fn offset_from_center_bits(&self, axis: usize) -> (r: Option<u64>)
        ensures
            r == self.spec_array_bits(OFFSET_FROM_CENTER_GROUP as int, axis as int),
    {
        self.array_bits(OFFSET_FROM_CENTER_GROUP, axis)
    }

    /// The stored bit pattern of `axis` in array `group`, when both are in range.
    pub open spec fn spec_array_bits(self, group: int, axis: int) -> Option<u64> {
        if 0 <= group < ARRAY_GROUPS && 0 <= axis < self@.dimension {
            Some(array_word(self@.payload, self@.dimension as int, group, axis))
        } else {
            None
        }
    }

    pub fn array_bits(&self, group: usize, axis: usize) -> (r: Option<u64>)
        ensures
            r == self.spec_array_bits(group as int, axis as int),
    {
        proof {
            use_type_invariant(self);
        }
        if group >= ARRAY_GROUPS || axis >= self.dimension() {
            return None;
        }
        let dimension = self.dimension();
        Some(payload_array_bits(self.payload, dimension, group, axis))
    }
}

/// Reads the stored bit pattern of `axis` in array `group`.
pub fn payload_array_bits(payload: &[u8], dimension: usize, group: usize, axis: usize) -> (r: u64)
    requires
        group < ARRAY_GROUPS,
        axis < dimension,
        dimension <= u16::MAX,
        payload@.len() == endpoint_payload_len(dimension as int),
    ensures
        r == array_word(payload@, dimension as int, group as int, axis as int),
{
    assert(group * dimension + axis < ARRAY_GROUPS * dimension) by (nonlinear_arith)
        requires
            group < ARRAY_GROUPS,
            axis < dimension,
    ;
    assert(group * dimension <= ARRAY_GROUPS * u16::MAX) by (nonlinear_arith)
        requires
            group < ARRAY_GROUPS,
            dimension <= u16::MAX,
    ;
    let start = ARRAYS_START + (group * dimension + axis) * 8;
    read_be_u64(slice_subrange(payload, start, start + 8))
}

/// Payload length for a `dimension`-axis sample, if the envelope admits it.
pub fn endpoint_payload_len_v1<F>(dimension: usize, payload_limit: usize) -> (res: Result<
    usize,
    EndpointSampleCodecV1Error<F>,
>)
    ensures
        res == endpoint_payload_len_outcome::<F>(dimension, payload_limit),
{
    if dimension == 0 {
        return Err(EndpointSampleCodecV1Error::DimensionZero);
    }
    if dimension > 0xffff {
        return Err(EndpointSampleCodecV1Error::DimensionOutOfRange { dimension });
    }
    let variable = ENDPOINT_SAMPLE_PER_AXIS_V1_LEN * dimension;
    let total = ENDPOINT_SAMPLE_FIXED_PREFIX_V1_LEN + variable;
    if total > payload_limit {
        return Err(EndpointSampleCodecV1Error::DimensionOutOfRange { dimension });
    }
    Ok(total)
}

/// Concatenated big-endian encodings of `words`.
pub open spec fn be_u64_words(words: Seq<u64>) -> Seq<u8>
    decreases words.len(),
{
    if words.len() == 0 {
        Seq::empty()
    } else {
        be_u64_words(words.drop_last()) + be_u64(words.last())
    }
}

/// Concatenated encodings of the first `count` value arrays.
pub open spec fn array_groups_bytes(arrays: Seq<Seq<u64>>, count: int) -> Seq<u8>
    decreases count,
{
    if count <= 0 {
        Seq::empty()
    } else {
        array_groups_bytes(arrays, count - 1) + be_u64_words(arrays[count - 1])
    }
}

/// The canonical endpoint-sample payload for the given fields: version,
/// dimension, nested session-frame length and bytes, step index, target and
/// anchor net IDs, membership code, then the six per-axis value arrays in the
/// order center offset, half extent, target translation, anchor translation,
/// region center, offset from center.
pub open spec fn endpoint_payload_v1(
    dimension: u16,
    session_frame: Seq<u8>,
    step_index: u64,
    target_net_id: u64,
    anchor_net_id: u64,
    membership: CanonicalEndpointMembershipV1,
    arrays: Seq<Seq<u64>>,
) -> Seq<u8> {
    be_u32(ENDPOINT_SAMPLE_PAYLOAD_V1_VERSION) + be_u16(dimension) + be_u16(
        ENDPOINT_SAMPLE_SESSION_BINDING_FRAME_V1_LEN as u16,
    ) + session_frame + be_u64(step_index) + be_u64(target_net_id) + be_u64(anchor_net_id) + seq![
        membership.spec_code(),
    ] + array_groups_bytes(arrays, ARRAY_GROUPS as int)
}

pub proof fn lemma_be_u64_words(words: Seq<u64>)
    ensures
        be_u64_words(words).len() == 8 * words.len(),
        forall|i: int|
            0 <= i < words.len() ==> #[trigger] be_u64_words(words).subrange(8 * i, 8 * i + 8)
                == be_u64(words[i]),
    decreases words.len(),
{
    if words.len() > 0 {
        let init = words.drop_last();
        lemma_be_u64_words(init);
        lemma_be_u64(words.last());
        let all = be_u64_words(words);
        assert(all == be_u64_words(init) + be_u64(words.last()));
        assert forall|i: int| 0 <= i < words.len() implies #[trigger] all.subrange(8 * i, 8 * i + 8)
            == be_u64(words[i]) by {
            if i < words.len() - 1 {
                assert(init[i] == words[i]);
                assert(all.subrange(8 * i, 8 * i + 8) =~= be_u64_words(init).subrange(
                    8 * i,
                    8 * i + 8,
                ));
            } else {
                assert(all.subrange(8 * i, 8 * i + 8) =~= be_u64(words.last()));
            }
        }
    }
}

/// Every group of `arrays` holds `dimension` values.
pub open spec fn arrays_shaped(arrays: Seq<Seq<u64>>, dimension: int) -> bool {
    &&& arrays.len() == ARRAY_GROUPS
    &&& forall|g: int| 0 <= g < ARRAY_GROUPS ==> (#[trigger] arrays[g]).len() == dimension
}

proof fn lemma_array_groups_bytes(arrays: Seq<Seq<u64>>, dimension: int, count: int)
    requires
        arrays_shaped(arrays, dimension),
        dimension >= 0,
        0 <= count <= ARRAY_GROUPS,
    ensures
        array_groups_bytes(arrays, count).len() == 8 * dimension * count,
        forall|g: int, a: int|
            0 <= g < count && 0 <= a < dimension ==> #[trigger] array_groups_bytes(
                arrays,
                count,
            ).subrange(8 * (g * dimension + a), 8 * (g * dimension + a) + 8) == be_u64(
                arrays[g][a],
            ),
    decreases count,
{
    if count > 0 {
        lemma_array_groups_bytes(arrays, dimension, count - 1);
        let prev = array_groups_bytes(arrays, count - 1);
        let last = be_u64_words(arrays[count - 1]);
        lemma_be_u64_words(arrays[count - 1]);
        let all = array_groups_bytes(arrays, count);
        assert(all == prev + last);
        assert(8 * dimension * count == 8 * dimension * (count - 1) + 8 * dimension)
            by (nonlinear_arith);
        assert forall|g: int, a: int| 0 <= g < count && 0 <= a < dimension implies #[trigger] all.subrange(
            8 * (g * dimension + a),
            8 * (g * dimension + a) + 8,
        ) == be_u64(arrays[g][a]) by {
            if g < count - 1 {
                assert(8 * (g * dimension + a) + 8 <= 8 * dimension * (count - 1))
                    by (nonlinear_arith)
                    requires
                        0 <= g < count - 1,
                        0 <= a < dimension,
                ;
                assert(all.subrange(8 * (g * dimension + a), 8 * (g * dimension + a) + 8)
                    =~= prev.subrange(8 * (g * dimension + a), 8 * (g * dimension + a) + 8));
            } else {
                assert(8 * (g * dimension + a) == 8 * dimension * (count - 1) + 8 * a)
                    by (nonlinear_arith)
                    requires
                        g == count - 1,
                ;
                assert(last.subrange(8 * a, 8 * a + 8) == be_u64(arrays[count - 1][a]));
                assert(all.subrange(8 * (g * dimension + a), 8 * (g * dimension + a) + 8)
                    =~= last.subrange(8 * a, 8 * a + 8));
            }
        }
    }
}

/// The canonical payload has the expected length, and every field reads back
/// as the value that was encoded.
pub proof fn lemma_endpoint_payload_reads_back(
    dimension: u16,
    session_frame: Seq<u8>,
    step_index: u64,
    target_net_id: u64,
    anchor_net_id: u64,
    membership: CanonicalEndpointMembershipV1,
    arrays: Seq<Seq<u64>>,
)
    requires
        session_frame.len() == ENDPOINT_SAMPLE_SESSION_BINDING_FRAME_V1_LEN,
        arrays_shaped(arrays, dimension as int),
    ensures
        ({
            let p = endpoint_payload_v1(
                dimension,
                session_frame,
                step_index,
                target_net_id,
                anchor_net_id,
                membership,
                arrays,
            );
            &&& p.len() == endpoint_payload_len(dimension as int)
            &&& u32_from_be(p.subrange(0, 4)) == ENDPOINT_SAMPLE_PAYLOAD_V1_VERSION
            &&& u16_from_be(p.subrange(4, 6)) == dimension
            &&& u16_from_be(p.subrange(6, 8)) == ENDPOINT_SAMPLE_SESSION_BINDING_FRAME_V1_LEN
            &&& p.subrange(8, 151) == session_frame
            &&& u64_from_be(p.subrange(151, 159)) == step_index
            &&& u64_from_be(p.subrange(159, 167)) == target_net_id
            &&& u64_from_be(p.subrange(167, 175)) == anchor_net_id
            &&& p[175] == membership.spec_code()
            &&& forall|g: int, a: int|
                0 <= g < ARRAY_GROUPS && 0 <= a < dimension ==> #[trigger] array_word(
                    p,
                    dimension as int,
                    g,
                    a,
                ) == arrays[g][a]
        }),
{
    let d = dimension as int;
    let p = endpoint_payload_v1(
        dimension,
        session_frame,
        step_index,
        target_net_id,
        anchor_net_id,
        membership,
        arrays,
    );
    lemma_be_u32(ENDPOINT_SAMPLE_PAYLOAD_V1_VERSION);
    lemma_be_u16(dimension);
    lemma_be_u16(ENDPOINT_SAMPLE_SESSION_BINDING_FRAME_V1_LEN as u16);
    lemma_be_u64(step_index);
    lemma_be_u64(target_net_id);
    lemma_be_u64(anchor_net_id);
    lemma_array_groups_bytes(arrays, d, ARRAY_GROUPS as int);
    let groups = array_groups_bytes(arrays, ARRAY_GROUPS as int);
    let header = be_u32(ENDPOINT_SAMPLE_PAYLOAD_V1_VERSION) + be_u16(dimension) + be_u16(
        ENDPOINT_SAMPLE_SESSION_BINDING_FRAME_V1_LEN as u16,
    ) + session_frame + be_u64(step_index) + be_u64(target_net_id) + be_u64(anchor_net_id)
        + seq![membership.spec_code()];
    assert(header.len() == ARRAYS_START);
    assert(p == header + groups);
    assert(p.subrange(0, 4) =~= be_u32(ENDPOINT_SAMPLE_PAYLOAD_V1_VERSION));
    assert(p.subrange(4, 6) =~= be_u16(dimension));
    assert(p.subrange(6, 8) =~= be_u16(ENDPOINT_SAMPLE_SESSION_BINDING_FRAME_V1_LEN as u16));
    assert(p.subrange(8, 151) =~= session_frame);
    assert(p.subrange(151, 159) =~= be_u64(step_index));
    assert(p.subrange(159, 167) =~= be_u64(target_net_id));
    assert(p.subrange(167, 175) =~= be_u64(anchor_net_id));
    assert(p[175] == header[175]);
    assert forall|g: int, a: int| 0 <= g < ARRAY_GROUPS && 0 <= a < dimension implies #[trigger] array_word(
        p,
        d,
        g,
        a,
    ) == arrays[g][a] by {
        let w = g * d + a;
        assert(0 <= w && 8 * w + 8 <= 8 * d * 6) by (nonlinear_arith)
            requires
                0 <= g < 6,
                0 <= a < d,
                w == g * d + a,
        ;
        let start = array_word_start(d, g, a);
        assert(start == ARRAYS_START + 8 * w);
        assert(p.subrange(start, start + 8) =~= groups.subrange(8 * w, 8 * w + 8));
        lemma_be_u64(arrays[g][a]);
    }
}

/// The six value arrays as stored in a `dimension`-axis payload.
pub open spec fn payload_arrays(p: Seq<u8>, dimension: int) -> Seq<Seq<u64>> {
    Seq::new(
        ARRAY_GROUPS as nat,
        |g: int| Seq::new(dimension as nat, |a: int| array_word(p, dimension, g, a)),
    )
}

/// A payload whose fixed fields are well formed is exactly the canonical
/// encoding of the fields it holds: it has no slack bytes.
#[verifier::spinoff_prover]
#[verifier::rlimit(50)]
pub proof fn lemma_endpoint_payload_canonical(p: Seq<u8>, dimension: u16)
    requires
        p.len() == endpoint_payload_len(dimension as int),
        u32_from_be(p.subrange(0, 4)) == ENDPOINT_SAMPLE_PAYLOAD_V1_VERSION,
        u16_from_be(p.subrange(4, 6)) == dimension,
        u16_from_be(p.subrange(6, 8)) == ENDPOINT_SAMPLE_SESSION_BINDING_FRAME_V1_LEN,
        CanonicalEndpointMembershipV1::spec_from_code(p[175]) is Some,
    ensures
        p == endpoint_payload_v1(
            dimension,
            p.subrange(8, 151),
            u64_from_be(p.subrange(151, 159)),
            u64_from_be(p.subrange(159, 167)),
            u64_from_be(p.subrange(167, 175)),
            CanonicalEndpointMembershipV1::spec_from_code(p[175])->Some_0,
            payload_arrays(p, dimension as int),
        ),
{
    let d = dimension as int;
    let arrays = payload_arrays(p, d);
    let membership = CanonicalEndpointMembershipV1::spec_from_code(p[175])->Some_0;
    let q = endpoint_payload_v1(
        dimension,
        p.subrange(8, 151),
        u64_from_be(p.subrange(151, 159)),
        u64_from_be(p.subrange(159, 167)),
        u64_from_be(p.subrange(167, 175)),
        membership,
        arrays,
    );
    assert(arrays_shaped(arrays, d));
    lemma_endpoint_payload_reads_back(
        dimension,
        p.subrange(8, 151),
        u64_from_be(p.subrange(151, 159)),
        u64_from_be(p.subrange(159, 167)),
        u64_from_be(p.subrange(167, 175)),
        membership,
        arrays,
    );
    lemma_u32_from_be(p.subrange(0, 4));
    lemma_u16_from_be(p.subrange(4, 6));
    lemma_u16_from_be(p.subrange(6, 8));
    lemma_u64_from_be(p.subrange(151, 159));
    lemma_u64_from_be(p.subrange(159, 167));
    lemma_u64_from_be(p.subrange(167, 175));
    lemma_u32_from_be(q.subrange(0, 4));
    lemma_u16_from_be(q.subrange(4, 6));
    lemma_u16_from_be(q.subrange(6, 8));
    lemma_u64_from_be(q.subrange(151, 159));
    lemma_u64_from_be(q.subrange(159, 167));
    lemma_u64_from_be(q.subrange(167, 175));
    assert(p[175] == membership.spec_code());
    assert forall|k: int| 0 <= k < p.len() implies p[k] == q[k] by {
        if k < 4 {
            assert(p[k] == p.subrange(0, 4)[k] && q[k] == q.subrange(0, 4)[k]);
        } else if k < 6 {
            assert(p[k] == p.subrange(4, 6)[k - 4] && q[k] == q.subrange(4, 6)[k - 4]);
        } else if k < 8 {
            assert(p[k] == p.subrange(6, 8)[k - 6] && q[k] == q.subrange(6, 8)[k - 6]);
        } else if k < 151 {
            assert(p[k] == p.subrange(8, 151)[k - 8] && q[k] == q.subrange(8, 151)[k - 8]);
        } else if k < 159 {
            assert(p[k] == p.subrange(151, 159)[k - 151] && q[k] == q.subrange(151, 159)[k
                - 151]);
        } else if k < 167 {
            assert(p[k] == p.subrange(159, 167)[k - 159] && q[k] == q.subrange(159, 167)[k
                - 159]);
        } else if k < 175 {
            assert(p[k] == p.subrange(167, 175)[k - 167] && q[k] == q.subrange(167, 175)[k
                - 167]);
        } else if k == 175 {
        } else {
            let w = (k - ARRAYS_START) / 8;
            let g = w / d;
            let a = w % d;
            assert(d >= 1) by {
                if d == 0 {
                    assert(p.len() == ARRAYS_START);
                }
            }
            assert(0 <= w < 6 * d) by (nonlinear_arith)
                requires
                    ARRAYS_START <= k < ARRAYS_START + 48 * d,
                    w == (k - ARRAYS_START) / 8,
            ;
            assert(w == g * d + a && 0 <= g < 6 && 0 <= a < d) by (nonlinear_arith)
                requires
                    0 <= w < 6 * d,
                    d >= 1,
                    g == w / d,
                    a == w % d,
            ;
            let start = array_word_start(d, g, a);
            assert(start == ARRAYS_START + 8 * w);
            assert(start <= k < start + 8);
            assert(array_word(q, d, g, a) == arrays[g][a]);
            assert(arrays[g][a] == array_word(p, d, g, a));
            lemma_u64_from_be(p.subrange(start, start + 8));
            lemma_u64_from_be(q.subrange(start, start + 8));
            assert(p[k] == p.subrange(start, start + 8)[k - start]);
            assert(q[k] == q.subrange(start, start + 8)[k - start]);
        }
    }
    assert(p =~= q);
}

/// Value arrays that pass every per-axis check and whose geometry yields `membership`.
pub open spec fn arrays_admissible<F>(
    arrays: Seq<Seq<u64>>,
    dimension: int,
    membership: CanonicalEndpointMembershipV1,
    sums: Seq<u64>,
    differences: Seq<u64>,
) -> bool {
    &&& arrays_shaped(arrays, dimension)
    &&& forall|a: int|
        0 <= a < dimension ==> #[trigger] axis_values_error::<F>(
            arrays[0][a],
            arrays[1][a],
            arrays[2][a],
            arrays[3][a],
            arrays[4][a],
            arrays[5][a],
            sums,
            differences,
            a,
        ) is None
    &&& membership == (if forall|a: int|
        0 <= a < dimension ==> f64_bits_magnitude_le(#[trigger] arrays[5][a], arrays[1][a]) {
        CanonicalEndpointMembershipV1::Inside
    } else {
        CanonicalEndpointMembershipV1::Outside
    })
}

proof fn lemma_first_axis_error_none<F>(
    p: Seq<u8>,
    dimension: int,
    sums: Seq<u64>,
    differences: Seq<u64>,
    from: int,
)
    requires
        0 <= from,
        forall|a: int|
            from <= a < dimension ==> #[trigger] axis_error::<F>(p, dimension, sums, differences, a)
                is None,
    ensures
        first_axis_error::<F>(p, dimension, sums, differences, from) is None,
    decreases dimension - from,
{
    if from < dimension {
        lemma_first_axis_error_none::<F>(p, dimension, sums, differences, from + 1);
    }
}

proof fn lemma_stored_arrays_pass<F>(
    p: Seq<u8>,
    d: int,
    arrays: Seq<Seq<u64>>,
    membership: CanonicalEndpointMembershipV1,
    sums: Seq<u64>,
    differences: Seq<u64>,
)
    requires
        arrays_admissible::<F>(arrays, d, membership, sums, differences),
        forall|g: int, a: int|
            0 <= g < ARRAY_GROUPS && 0 <= a < d ==> #[trigger] array_word(p, d, g, a)
                == arrays[g][a],
    ensures
        first_axis_error::<F>(p, d, sums, differences, 0) is None,
        recomputed_membership(p, d) == membership,
{
    assert forall|a: int| 0 <= a < d implies #[trigger] axis_error::<F>(p, d, sums, differences, a)
        is None by {
        assert(array_word(p, d, 0, a) == arrays[0][a]);
        assert(array_word(p, d, 1, a) == arrays[1][a]);
        assert(array_word(p, d, 2, a) == arrays[2][a]);
        assert(array_word(p, d, 3, a) == arrays[3][a]);
        assert(array_word(p, d, 4, a) == arrays[4][a]);
        assert(array_word(p, d, 5, a) == arrays[5][a]);
        assert(axis_values_error::<F>(
            arrays[0][a],
            arrays[1][a],
            arrays[2][a],
            arrays[3][a],
            arrays[4][a],
            arrays[5][a],
            sums,
            differences,
            a,
        ) is None);
    }
    lemma_first_axis_error_none::<F>(p, d, sums, differences, 0);
    let inside_stored = forall|a: int|
        0 <= a < d ==> f64_bits_magnitude_le(
            #[trigger] array_word(p, d, OFFSET_FROM_CENTER_GROUP as int, a),
            array_word(p, d, HALF_EXTENTS_GROUP as int, a),
        );
    let inside_values = forall|a: int|
        0 <= a < d ==> f64_bits_magnitude_le(#[trigger] arrays[5][a], arrays[1][a]);
    assert(inside_stored == inside_values) by {
        if inside_values {
            assert forall|a: int| 0 <= a < d implies f64_bits_magnitude_le(
                #[trigger] array_word(p, d, OFFSET_FROM_CENTER_GROUP as int, a),
                array_word(p, d, HALF_EXTENTS_GROUP as int, a),
            ) by {
                assert(array_word(p, d, 5, a) == arrays[5][a]);
                assert(array_word(p, d, 1, a) == arrays[1][a]);
            }
        }
        if inside_stored {
            assert forall|a: int| 0 <= a < d implies f64_bits_magnitude_le(
                #[trigger] arrays[5][a],
                arrays[1][a],
            ) by {
                assert(array_word(p, d, 5, a) == arrays[5][a]);
                assert(array_word(p, d, 1, a) == arrays[1][a]);
            }
        }
    }
    assert(recomputed_membership(p, d) == membership);
}

proof fn lemma_outcome_ok_from_reads<F>(
    p: Seq<u8>,
    dimension: u16,
    step_index: u64,
    target_net_id: u64,
    anchor_net_id: u64,
    membership: CanonicalEndpointMembershipV1,
    payload_limit: usize,
    session: Result<(EvidenceFrameKindV1, Seq<u8>), F>,
    sums: Seq<u64>,
    differences: Seq<u64>,
)
    requires
        dimension >= 1,
        endpoint_payload_len(dimension as int) <= payload_limit,
        p.len() == endpoint_payload_len(dimension as int),
        u32_from_be(p.subrange(0, 4)) == ENDPOINT_SAMPLE_PAYLOAD_V1_VERSION,
        u16_from_be(p.subrange(4, 6)) == dimension,
        u16_from_be(p.subrange(6, 8)) == ENDPOINT_SAMPLE_SESSION_BINDING_FRAME_V1_LEN,
        u64_from_be(p.subrange(151, 159)) == step_index,
        u64_from_be(p.subrange(159, 167)) == target_net_id,
        u64_from_be(p.subrange(167, 175)) == anchor_net_id,
        CanonicalEndpointMembershipV1::spec_from_code(p[175]) == Some(membership),
        session is Ok,
        binding_frame_outcome_v1::<F>(session->Ok_0.0, session->Ok_0.1) is Ok,
        step_index != 0,
        target_net_id != anchor_net_id,
        first_axis_error::<F>(p, dimension as int, sums, differences, 0) is None,
        recomputed_membership(p, dimension as int) == membership,
    ensures
        endpoint_sample_outcome::<F>(
            EvidenceFrameKindV1::EndpointSample,
            p,
            payload_limit,
            session,
            sums,
            differences,
        ) == Ok::<EndpointSampleModelV1, EndpointSampleCodecV1Error<F>>(
            EndpointSampleModelV1 {
                session: binding_frame_outcome_v1::<F>(session->Ok_0.0, session->Ok_0.1)->Ok_0,
                dimension,
                step_index,
                target_net_id,
                anchor_net_id,
                membership,
                payload: p,
            },
        ),
{
    reveal(endpoint_sample_outcome);
}

/// Decoding the canonical payload of admissible fields, with a nested
/// session frame that decodes, yields exactly those fields.
pub proof fn lemma_endpoint_payload_decodes_to_fields<F>(
    dimension: u16,
    session_frame: Seq<u8>,
    step_index: u64,
    target_net_id: u64,
    anchor_net_id: u64,
    membership: CanonicalEndpointMembershipV1,
    arrays: Seq<Seq<u64>>,
    payload_limit: usize,
    session: Result<(EvidenceFrameKindV1, Seq<u8>), F>,
    sums: Seq<u64>,
    differences: Seq<u64>,
)
    requires
        dimension >= 1,
        endpoint_payload_len(dimension as int) <= payload_limit,
        session_frame.len() == ENDPOINT_SAMPLE_SESSION_BINDING_FRAME_V1_LEN,
        session is Ok,
        binding_frame_outcome_v1::<F>(session->Ok_0.0, session->Ok_0.1) is Ok,
        step_index != 0,
        target_net_id != anchor_net_id,
        arrays_admissible::<F>(arrays, dimension as int, membership, sums, differences),
    ensures
        endpoint_sample_outcome::<F>(
            EvidenceFrameKindV1::EndpointSample,
            endpoint_payload_v1(
                dimension,
                session_frame,
                step_index,
                target_net_id,
                anchor_net_id,
                membership,
                arrays,
            ),
            payload_limit,
            session,
            sums,
            differences,
        ) == Ok::<EndpointSampleModelV1, EndpointSampleCodecV1Error<F>>(
            EndpointSampleModelV1 {
                session: binding_frame_outcome_v1::<F>(session->Ok_0.0, session->Ok_0.1)->Ok_0,
                dimension,
                step_index,
                target_net_id,
                anchor_net_id,
                membership,
                payload: endpoint_payload_v1(
                    dimension,
                    session_frame,
                    step_index,
                    target_net_id,
                    anchor_net_id,
                    membership,
                    arrays,
                ),
            },
        ),
{
    let d = dimension as int;
    let p = endpoint_payload_v1(
        dimension,
        session_frame,
        step_index,
        target_net_id,
        anchor_net_id,
        membership,
        arrays,
    );
    lemma_endpoint_payload_reads_back(
        dimension,
        session_frame,
        step_index,
        target_net_id,
        anchor_net_id,
        membership,
        arrays,
    );
    assert(CanonicalEndpointMembershipV1::spec_from_code(p[175]) == Some(membership));
    lemma_stored_arrays_pass::<F>(p, d, arrays, membership, sums, differences);
    lemma_outcome_ok_from_reads::<F>(
        p,
        dimension,
        step_index,
        target_net_id,
        anchor_net_id,
        membership,
        payload_limit,
        session,
        sums,
        differences,
    );
}

/// A decoded payload is exactly the canonical encoding of the fields it was
/// decoded into.
pub proof fn lemma_decoded_endpoint_payload_is_canonical<F>(
    kind: EvidenceFrameKindV1,
    p: Seq<u8>,
    payload_limit: usize,
    session: Result<(EvidenceFrameKindV1, Seq<u8>), F>,
    sums: Seq<u64>,
    differences: Seq<u64>,
)
    requires
        endpoint_sample_outcome::<F>(kind, p, payload_limit, session, sums, differences) is Ok,
    ensures
        ({
            let m = endpoint_sample_outcome::<F>(
                kind,
                p,
                payload_limit,
                session,
                sums,
                differences,
            )->Ok_0;
            &&& m.payload == p
            &&& p == endpoint_payload_v1(
                m.dimension,
                p.subrange(8, 151),
                m.step_index,
                m.target_net_id,
                m.anchor_net_id,
                m.membership,
                payload_arrays(p, m.dimension as int),
            )
        }),
{
    reveal(endpoint_sample_outcome);
    lemma_endpoint_payload_canonical(p, u16_from_be(p.subrange(4, 6)));
}

/// The six value arrays as plain sequences.
pub open spec fn arrays_view(arrays: [&[u64]; ARRAY_GROUPS]) -> Seq<Seq<u64>> {
    Seq::new(ARRAY_GROUPS as nat, |g: int| arrays@[g]@)
}

fn push_words(out: &mut Vec<u8>, words: &[u64])
    ensures
        final(out)@ == old(out)@ + be_u64_words(words@),
{
    let mut i: usize = 0;
    while i < words.len()
        invariant
            i <= words@.len(),
            out@ == old(out)@ + be_u64_words(words@.subrange(0, i as int)),
        decreases words@.len() - i,
    {
        push_be_u64(out, words[i]);
        assert(words@.subrange(0, i + 1).drop_last() =~= words@.subrange(0, i as int));
        i = i + 1;
    }
    assert(words@.subrange(0, words@.len() as int) =~= words@);
}

/// Canonical endpoint payload for the given fields.
pub fn encode_endpoint_payload_fields_v1(
    dimension: u16,
    session_frame: &[u8],
    step_index: u64,
    target_net_id: u64,
    anchor_net_id: u64,
    membership: CanonicalEndpointMembershipV1,
    arrays: [&[u64]; ARRAY_GROUPS],
    expected_len: usize,
) -> (r: Vec<u8>)
    requires
        session_frame@.len() == ENDPOINT_SAMPLE_SESSION_BINDING_FRAME_V1_LEN,
        forall|g: int| 0 <= g < ARRAY_GROUPS ==> (#[trigger] arrays@[g])@.len() == dimension,
    ensures
        r@ == endpoint_payload_v1(
            dimension,
            session_frame@,
            step_index,
            target_net_id,
            anchor_net_id,
            membership,
            arrays_view(arrays),
        ),
{
    let mut payload: Vec<u8> = Vec::with_capacity(expected_len);
    push_be_u32(&mut payload, ENDPOINT_SAMPLE_PAYLOAD_V1_VERSION);
    push_be_u16(&mut payload, dimension);
    push_be_u16(&mut payload, ENDPOINT_SAMPLE_SESSION_BINDING_FRAME_V1_LEN as u16);
    push_bytes(&mut payload, session_frame);
    push_be_u64(&mut payload, step_index);
    push_be_u64(&mut payload, target_net_id);
    push_be_u64(&mut payload, anchor_net_id);
    payload.push(membership.code());
    let ghost header = payload@;
    assert(header =~= be_u32(ENDPOINT_SAMPLE_PAYLOAD_V1_VERSION) + be_u16(dimension) + be_u16(
        ENDPOINT_SAMPLE_SESSION_BINDING_FRAME_V1_LEN as u16,
    ) + session_frame@ + be_u64(step_index) + be_u64(target_net_id) + be_u64(anchor_net_id)
        + seq![membership.spec_code()]);
    let mut group: usize = 0;
    while group < ARRAY_GROUPS
        invariant
            group <= ARRAY_GROUPS,
            payload@ == header + array_groups_bytes(arrays_view(arrays), group as int),
        decreases ARRAY_GROUPS - group,
    {
        push_words(&mut payload, arrays[group]);
        assert(arrays_view(arrays)[group as int] == arrays@[group as int]@);
        group = group + 1;
    }
    payload
}

/// The first failing per-axis check, scanning axes in order.
fn check_axes<F>(
    payload: &[u8],
    dimension: usize,
    region_center_sums: &[u64],
    offset_differences: &[u64],
) -> (r: Option<EndpointSampleCodecV1Error<F>>)
    requires
        1 <= dimension <= u16::MAX,
        payload@.len() == endpoint_payload_len(dimension as int),
    ensures
        r == first_axis_error::<F>(
            payload@,
            dimension as int,
            region_center_sums@,
            offset_differences@,
            0,
        ),
{
    let mut axis: usize = 0;
    while axis < dimension
        invariant
            axis <= dimension,
            1 <= dimension <= u16::MAX,
            payload@.len() == endpoint_payload_len(dimension as int),
            first_axis_error::<F>(
                payload@,
                dimension as int,
                region_center_sums@,
                offset_differences@,
                0,
            ) == first_axis_error::<F>(
                payload@,
                dimension as int,
                region_center_sums@,
                offset_differences@,
                axis as int,
            ),
        decreases dimension - axis,
    {
        let center_offset = payload_array_bits(payload, dimension, CENTER_OFFSET_GROUP, axis);
        let half_extent = payload_array_bits(payload, dimension, HALF_EXTENTS_GROUP, axis);
        let target = payload_array_bits(payload, dimension, TARGET_TRANSLATION_GROUP, axis);
        let anchor = payload_array_bits(payload, dimension, ANCHOR_TRANSLATION_GROUP, axis);
        let region_center = payload_array_bits(payload, dimension, REGION_CENTER_GROUP, axis);
        let offset = payload_array_bits(payload, dimension, OFFSET_FROM_CENTER_GROUP, axis);
        let found: Option<EndpointSampleCodecV1Error<F>> = if !is_finite_f64_bits(center_offset) {
            Some(EndpointSampleCodecV1Error::NonFiniteCenterOffset { axis })
        } else if center_offset == F64_SIGN_BIT {
            Some(EndpointSampleCodecV1Error::NonCanonicalCenterOffsetZero { axis })
        } else if !is_finite_f64_bits(half_extent) {
            Some(EndpointSampleCodecV1Error::NonFiniteHalfExtent { axis })
        } else if is_not_positive_f64_bits(half_extent) {
            Some(EndpointSampleCodecV1Error::NonPositiveHalfExtent { axis })
        } else if !is_finite_f64_bits(target) {
            Some(EndpointSampleCodecV1Error::NonFiniteTargetTranslation { axis })
        } else if !is_finite_f64_bits(anchor) {
            Some(EndpointSampleCodecV1Error::NonFiniteAnchorTranslation { axis })
        } else if !is_finite_f64_bits(region_center) {
            Some(EndpointSampleCodecV1Error::NonFiniteRegionCenter { axis })
        } else if !is_finite_f64_bits(offset) {
            Some(EndpointSampleCodecV1Error::NonFiniteOffsetFromCenter { axis })
        } else if axis >= region_center_sums.len() || !is_finite_f64_bits(region_center_sums[axis])
            || region_center_sums[axis] != region_center {
            Some(EndpointSampleCodecV1Error::RegionCenterMismatch { axis })
        } else if axis >= offset_differences.len() || !is_finite_f64_bits(offset_differences[axis])
            || offset_differences[axis] != offset {
            Some(EndpointSampleCodecV1Error::OffsetFromCenterMismatch { axis })
        } else {
            None
        };
        assert(found == axis_error::<F>(
            payload@,
            dimension as int,
            region_center_sums@,
            offset_differences@,
            axis as int,
        ));
        if found.is_some() {
            return found;
        }
        axis = axis + 1;
    }
    None
}

/// Membership recomputed from the stored offsets and half extents.
fn recompute_membership(payload: &[u8], dimension: usize) -> (r: CanonicalEndpointMembershipV1)
    requires
        1 <= dimension <= u16::MAX,
        payload@.len() == endpoint_payload_len(dimension as int),
    ensures
        r == recomputed_membership(payload@, dimension as int),
{
    let mut axis: usize = 0;
    while axis < dimension
        invariant
            axis <= dimension,
            1 <= dimension <= u16::MAX,
            payload@.len() == endpoint_payload_len(dimension as int),
            forall|a: int|
                0 <= a < axis ==> f64_bits_magnitude_le(
                    #[trigger] array_word(payload@, dimension as int, OFFSET_FROM_CENTER_GROUP as int, a),
                    array_word(payload@, dimension as int, HALF_EXTENTS_GROUP as int, a),
                ),
        decreases dimension - axis,
    {
        let offset = payload_array_bits(payload, dimension, OFFSET_FROM_CENTER_GROUP, axis);
        let half_extent = payload_array_bits(payload, dimension, HALF_EXTENTS_GROUP, axis);
        if f64_magnitude_bits(offset) > f64_magnitude_bits(half_extent) {
            return CanonicalEndpointMembershipV1::Outside;
        }
        axis = axis + 1;
    }
    CanonicalEndpointMembershipV1::Inside
}

/// Decodes one handed-over endpoint-sample frame into untrusted canonical
/// semantics. Every check of the canonical grammar and of geometric
/// consistency is made, in a fixed order; the first that fails is reported.
pub fn decode_endpoint_sample_v1<'a, F>(input: EndpointSampleFrameV1<'a, F>) -> (res: Result<
    DecodedEndpointSampleV1<'a>,
    EndpointSampleCodecV1Error<F>,
>)
    requires
        endpoint_input_consistent(input),
    ensures
        endpoint_result_is(res, endpoint_input_outcome(input)),
{
    reveal(endpoint_sample_outcome);
    let EndpointSampleFrameV1 { frame, session_frame, region_center_sums, offset_differences } =
        input;
    if frame.kind != EvidenceFrameKindV1::EndpointSample {
        return Err(EndpointSampleCodecV1Error::WrongFrameKind { actual: frame.kind });
    }
    let payload = frame.payload;
    if payload.len() < ENDPOINT_SAMPLE_FIXED_PREFIX_V1_LEN {
        return Err(EndpointSampleCodecV1Error::PayloadTooShort { actual: payload.len() });
    }
    let version = read_be_u32(slice_subrange(payload, 0, 4));
    if version != ENDPOINT_SAMPLE_PAYLOAD_V1_VERSION {
        return Err(EndpointSampleCodecV1Error::UnsupportedPayloadVersion { version });
    }
    let dimension = read_be_u16(slice_subrange(payload, 4, 6));
    if dimension == 0 {
        return Err(EndpointSampleCodecV1Error::DimensionZero);
    }
    let expected_len = match endpoint_payload_len_v1(dimension as usize, frame.payload_limit) {
        Ok(len) => len,
        Err(e) => {
            return Err(e);
        },
    };
    if payload.len() != expected_len {
        return Err(
            EndpointSampleCodecV1Error::WrongPayloadLength {
                actual: payload.len(),
                expected: expected_len,
            },
        );
    }
    let session_len = read_be_u16(slice_subrange(payload, 6, 8)) as usize;
    if session_len != ENDPOINT_SAMPLE_SESSION_BINDING_FRAME_V1_LEN {
        return Err(EndpointSampleCodecV1Error::SessionBindingFrameLength { actual: session_len });
    }
    let session_binding = match session_frame {
        Err(e) => {
            return Err(
                EndpointSampleCodecV1Error::SessionBinding(
                    EvidenceSessionBindingCodecV1Error::Frame(e),
                ),
            );
        },
        Ok(nested) => match decode_evidence_session_binding_v1(nested) {
            Ok(decoded) => decoded,
            Err(e) => {
                return Err(EndpointSampleCodecV1Error::SessionBinding(e));
            },
        },
    };
    let step_index = read_be_u64(slice_subrange(payload, STEP_INDEX_START, TARGET_NET_ID_START));
    if step_index == 0 {
        return Err(EndpointSampleCodecV1Error::StepIndexZero);
    }
    let target_net_id = read_be_u64(slice_subrange(payload, TARGET_NET_ID_START, ANCHOR_NET_ID_START));
    let anchor_net_id = read_be_u64(slice_subrange(payload, ANCHOR_NET_ID_START, MEMBERSHIP_START));
    if target_net_id == anchor_net_id {
        return Err(EndpointSampleCodecV1Error::SameTargetAnchorNetId { net_id: target_net_id });
    }
    let membership_code = payload[MEMBERSHIP_START];
    let membership = match CanonicalEndpointMembershipV1::from_code(membership_code) {
        Some(m) => m,
        None => {
            return Err(EndpointSampleCodecV1Error::InvalidMembership { code: membership_code });
        },
    };
    let dimension_usize = dimension as usize;
    match check_axes(payload, dimension_usize, region_center_sums, offset_differences) {
        Some(e) => {
            return Err(e);
        },
        None => {},
    }
    let recomputed = recompute_membership(payload, dimension_usize);
    if membership != recomputed {
        return Err(
            EndpointSampleCodecV1Error::MembershipMismatch { encoded: membership, recomputed },
        );
    }
    Ok(
        DecodedEndpointSampleV1 {
            session_binding,
            dimension,
            step_index,
            target_net_id,
            anchor_net_id,
            membership,
            payload,
        },
    )
}

} // verus!
