//! Canonical persistent consecutive sampled endpoint presence.
//!
//! A relation payload carries two exact endpoint-sample frames in
//! previous/current order. Decoding slices the bounded outer payload, takes the
//! endpoint decoder's results on the two embedded frames, then independently
//! checks the persistent relation: same session, subject, anchor and region,
//! both samples inside, and adjacent steps. It never reconstructs issuer-side
//! authority types.
use crate::be_bytes::{
    be_u32, bytes_equal, lemma_be_u32, push_be_u32, push_bytes, read_be_u32, u32_from_be,
};
use crate::endpoint_sample_codec::{
    decode_endpoint_sample_v1, endpoint_input_consistent, endpoint_input_outcome,
    CanonicalEndpointMembershipV1, DecodedEndpointSampleV1, EndpointSampleCodecV1Error,
    EndpointSampleFrameV1, EndpointSampleModelV1,
};
use crate::endpoint_claim_identity::group_values;
use crate::frame::{EvidenceFrameKindV1, EvidenceFrameV1};
use vstd::prelude::*;
use vstd::slice::slice_subrange;

verus! {

pub const CONSECUTIVE_PRESENCE_PAYLOAD_V1_VERSION: u32 = 1;

pub const CONSECUTIVE_PRESENCE_FIXED_V1_LEN: usize = 12;

pub const PREVIOUS_LEN_START: usize = 4;

pub const PREVIOUS_FRAME_START: usize = 8;

#[derive(Clone, Debug, PartialEq, Eq)]
pub enum ConsecutivePresenceCodecV1Error<F> {
    Frame(F),
    Endpoint(EndpointSampleCodecV1Error<F>),
    WrongFrameKind { actual: EvidenceFrameKindV1 },
    PayloadTooShort { actual: usize },
    UnsupportedPayloadVersion { version: u32 },
    EmbeddedLengthOverflow,
    TruncatedPreviousFrame { declared: usize, available: usize },
    MissingCurrentLength,
    TruncatedCurrentFrame { declared: usize, available: usize },
    TrailingPayloadBytes { trailing: usize },
    PayloadTooLarge { len: usize },
    PersistentSessionMismatch,
    DimensionMismatch { previous: usize, current: usize },
    TargetMismatch { previous: u64, current: u64 },
    AnchorMismatch { previous: u64, current: u64 },
    CenterOffsetMismatch { axis: usize },
    HalfExtentMismatch { axis: usize },
    PreviousOutside,
    CurrentOutside,
    DuplicateStep { step_index: u64 },
    ReversedStep { previous_step: u64, current_step: u64 },
    StepGap { previous_step: u64, current_step: u64 },
    DecodedInvariant,
    ProducerInvariant,
}

/// Where the two embedded frames lie in a relation payload.
pub struct ConsecutivePresenceLayoutV1 {
    pub previous_start: usize,
    pub previous_end: usize,
    pub current_start: usize,
    pub current_end: usize,
}

/// What slicing the relation payload `p` yields, checks taken in order.
pub open spec fn consecutive_layout_outcome<F>(p: Seq<u8>) -> Result<
    ConsecutivePresenceLayoutV1,
    ConsecutivePresenceCodecV1Error<F>,
> {
    let version = u32_from_be(p.subrange(0, 4));
    let previous_len = u32_from_be(p.subrange(4, 8)) as int;
    let previous_end = PREVIOUS_FRAME_START + previous_len;
    let current_len_end = previous_end + 4;
    let current_len = u32_from_be(p.subrange(previous_end, current_len_end)) as int;
    let current_end = current_len_end + current_len;
    if p.len() < PREVIOUS_FRAME_START {
        Err(ConsecutivePresenceCodecV1Error::PayloadTooShort { actual: p.len() as usize })
    } else if version != CONSECUTIVE_PRESENCE_PAYLOAD_V1_VERSION {
        Err(ConsecutivePresenceCodecV1Error::UnsupportedPayloadVersion { version })
    } else if previous_end > usize::MAX {
        Err(ConsecutivePresenceCodecV1Error::EmbeddedLengthOverflow)
    } else if previous_end > p.len() {
        Err(
            ConsecutivePresenceCodecV1Error::TruncatedPreviousFrame {
                declared: previous_len as usize,
                available: (p.len() - PREVIOUS_FRAME_START) as usize,
            },
        )
    } else if current_len_end > usize::MAX {
        Err(ConsecutivePresenceCodecV1Error::EmbeddedLengthOverflow)
    } else if current_len_end > p.len() {
        Err(ConsecutivePresenceCodecV1Error::MissingCurrentLength)
    } else if current_end > usize::MAX {
        Err(ConsecutivePresenceCodecV1Error::EmbeddedLengthOverflow)
    } else if current_end > p.len() {
        Err(
            ConsecutivePresenceCodecV1Error::TruncatedCurrentFrame {
                declared: current_len as usize,
                available: (p.len() - current_len_end) as usize,
            },
        )
    } else if current_end != p.len() {
        Err(
            ConsecutivePresenceCodecV1Error::TrailingPayloadBytes {
                trailing: (p.len() - current_end) as usize,
            },
        )
    } else {
        Ok(
            ConsecutivePresenceLayoutV1 {
                previous_start: PREVIOUS_FRAME_START,
                previous_end: previous_end as usize,
                current_start: current_len_end as usize,
                current_end: current_end as usize,
            },
        )
    }
}

/// Slices one relation payload into its two embedded frames.
pub fn consecutive_presence_layout_v1<F>(payload: &[u8]) -> (res: Result<
    ConsecutivePresenceLayoutV1,
    ConsecutivePresenceCodecV1Error<F>,
>)
    ensures
        res == consecutive_layout_outcome::<F>(payload@),
{
    if payload.len() < PREVIOUS_FRAME_START {
        return Err(ConsecutivePresenceCodecV1Error::PayloadTooShort { actual: payload.len() });
    }
    let version = read_be_u32(slice_subrange(payload, 0, PREVIOUS_LEN_START));
    if version != CONSECUTIVE_PRESENCE_PAYLOAD_V1_VERSION {
        return Err(ConsecutivePresenceCodecV1Error::UnsupportedPayloadVersion { version });
    }
    let previous_len = read_be_u32(slice_subrange(payload, PREVIOUS_LEN_START, PREVIOUS_FRAME_START))
        as usize;
    if previous_len > usize::MAX - PREVIOUS_FRAME_START {
        return Err(ConsecutivePresenceCodecV1Error::EmbeddedLengthOverflow);
    }
    let previous_end = PREVIOUS_FRAME_START + previous_len;
    if previous_end > payload.len() {
        return Err(
            ConsecutivePresenceCodecV1Error::TruncatedPreviousFrame {
                declared: previous_len,
                available: payload.len() - PREVIOUS_FRAME_START,
            },
        );
    }
    if previous_end > usize::MAX - 4 {
        return Err(ConsecutivePresenceCodecV1Error::EmbeddedLengthOverflow);
    }
    let current_len_end = previous_end + 4;
    if current_len_end > payload.len() {
        return Err(ConsecutivePresenceCodecV1Error::MissingCurrentLength);
    }
    let current_len = read_be_u32(slice_subrange(payload, previous_end, current_len_end)) as usize;
    if current_len > usize::MAX - current_len_end {
        return Err(ConsecutivePresenceCodecV1Error::EmbeddedLengthOverflow);
    }
    let current_end = current_len_end + current_len;
    if current_end > payload.len() {
        return Err(
            ConsecutivePresenceCodecV1Error::TruncatedCurrentFrame {
                declared: current_len,
                available: payload.len() - current_len_end,
            },
        );
    }
    if current_end != payload.len() {
        return Err(
            ConsecutivePresenceCodecV1Error::TrailingPayloadBytes {
                trailing: payload.len() - current_end,
            },
        );
    }
    Ok(
        ConsecutivePresenceLayoutV1 {
            previous_start: PREVIOUS_FRAME_START,
            previous_end,
            current_start: current_len_end,
            current_end,
        },
    )
}

/// The first axis, from `from` on, whose region center offset or half extent
/// differs between the two samples.
pub open spec fn first_region_mismatch<F>(
    previous: EndpointSampleModelV1,
    current: EndpointSampleModelV1,
    from: int,
) -> Option<ConsecutivePresenceCodecV1Error<F>>
    decreases previous.dimension - from,
{
    if from < 0 || from >= previous.dimension {
        None
    } else if group_values(previous, 0)[from] != group_values(current, 0)[from] {
        Some(ConsecutivePresenceCodecV1Error::CenterOffsetMismatch { axis: from as usize })
    } else if group_values(previous, 1)[from] != group_values(current, 1)[from] {
        Some(ConsecutivePresenceCodecV1Error::HalfExtentMismatch { axis: from as usize })
    } else {
        first_region_mismatch::<F>(previous, current, from + 1)
    }
}

/// What checking the persistent relation between two admitted samples yields,
/// checks taken in order.
pub open spec fn persistent_relation_outcome<F>(
    previous: EndpointSampleModelV1,
    current: EndpointSampleModelV1,
) -> Result<(), ConsecutivePresenceCodecV1Error<F>> {
    let previous_step = previous.step_index;
    let current_step = current.step_index;
    if previous.session != current.session {
        Err(ConsecutivePresenceCodecV1Error::PersistentSessionMismatch)
    } else if previous.dimension != current.dimension {
        Err(
            ConsecutivePresenceCodecV1Error::DimensionMismatch {
                previous: previous.dimension as usize,
                current: current.dimension as usize,
            },
        )
    } else if previous.target_net_id != current.target_net_id {
        Err(
            ConsecutivePresenceCodecV1Error::TargetMismatch {
                previous: previous.target_net_id,
                current: current.target_net_id,
            },
        )
    } else if previous.anchor_net_id != current.anchor_net_id {
        Err(
            ConsecutivePresenceCodecV1Error::AnchorMismatch {
                previous: previous.anchor_net_id,
                current: current.anchor_net_id,
            },
        )
    } else if first_region_mismatch::<F>(previous, current, 0) is Some {
        Err(first_region_mismatch::<F>(previous, current, 0)->Some_0)
    } else if previous.membership != CanonicalEndpointMembershipV1::Inside {
        Err(ConsecutivePresenceCodecV1Error::PreviousOutside)
    } else if current.membership != CanonicalEndpointMembershipV1::Inside {
        Err(ConsecutivePresenceCodecV1Error::CurrentOutside)
    } else if current_step == previous_step {
        Err(ConsecutivePresenceCodecV1Error::DuplicateStep { step_index: previous_step })
    } else if current_step < previous_step {
        Err(ConsecutivePresenceCodecV1Error::ReversedStep { previous_step, current_step })
    } else if current_step != previous_step + 1 {
        Err(ConsecutivePresenceCodecV1Error::StepGap { previous_step, current_step })
    } else {
        Ok(())
    }
}

/// Checks the persistent relation between two admitted endpoint samples.
pub fn ensure_persistent_relation<F>(
    previous: &DecodedEndpointSampleV1<'_>,
    current: &DecodedEndpointSampleV1<'_>,
) -> (res: Result<(), ConsecutivePresenceCodecV1Error<F>>)
    ensures
        res == persistent_relation_outcome::<F>(previous@, current@),
{
    let previous_session = previous.session_binding();
    let current_session = current.session_binding();
    let same_session = bytes_equal(
        previous_session.session_id_bytes(),
        current_session.session_id_bytes(),
    ) && previous_session.physical_authority_raw() == current_session.physical_authority_raw()
        && previous_session.world_generation_raw() == current_session.world_generation_raw()
        && previous_session.temporal_incarnation_raw()
        == current_session.temporal_incarnation_raw()
        && previous_session.session_profile_code() == current_session.session_profile_code();
    if !same_session {
        return Err(ConsecutivePresenceCodecV1Error::PersistentSessionMismatch);
    }
    if previous.dimension() != current.dimension() {
        return Err(
            ConsecutivePresenceCodecV1Error::DimensionMismatch {
                previous: previous.dimension(),
                current: current.dimension(),
            },
        );
    }
    if previous.target_net_id() != current.target_net_id() {
        return Err(
            ConsecutivePresenceCodecV1Error::TargetMismatch {
                previous: previous.target_net_id(),
                current: current.target_net_id(),
            },
        );
    }
    if previous.anchor_net_id() != current.anchor_net_id() {
        return Err(
            ConsecutivePresenceCodecV1Error::AnchorMismatch {
                previous: previous.anchor_net_id(),
                current: current.anchor_net_id(),
            },
        );
    }
    let dimension = previous.dimension();
    let mut axis: usize = 0;
    while axis < dimension
        invariant
            axis <= dimension,
            dimension == previous@.dimension,
            previous@.dimension == current@.dimension,
            previous@.session == current@.session,
            previous@.target_net_id == current@.target_net_id,
            previous@.anchor_net_id == current@.anchor_net_id,
            first_region_mismatch::<F>(previous@, current@, 0) == first_region_mismatch::<F>(
                previous@,
                current@,
                axis as int,
            ),
        decreases dimension - axis,
    {
        let previous_center = previous.center_offset_bits(axis);
        let current_center = current.center_offset_bits(axis);
        if previous_center != current_center {
            return Err(ConsecutivePresenceCodecV1Error::CenterOffsetMismatch { axis });
        }
        let previous_half = previous.half_extent_bits(axis);
        let current_half = current.half_extent_bits(axis);
        if previous_half != current_half {
            return Err(ConsecutivePresenceCodecV1Error::HalfExtentMismatch { axis });
        }
        axis = axis + 1;
    }
    if previous.membership() != CanonicalEndpointMembershipV1::Inside {
        return Err(ConsecutivePresenceCodecV1Error::PreviousOutside);
    }
    if current.membership() != CanonicalEndpointMembershipV1::Inside {
        return Err(ConsecutivePresenceCodecV1Error::CurrentOutside);
    }
    let previous_step = previous.step_index();
    let current_step = current.step_index();
    if current_step == previous_step {
        return Err(ConsecutivePresenceCodecV1Error::DuplicateStep { step_index: previous_step });
    }
    if current_step < previous_step {
        return Err(ConsecutivePresenceCodecV1Error::ReversedStep { previous_step, current_step });
    }
    if previous_step == u64::MAX || current_step != previous_step + 1 {
        return Err(ConsecutivePresenceCodecV1Error::StepGap { previous_step, current_step });
    }
    Ok(())
}

/// The semantics of one admitted relation as plain values: the two embedded
/// frames and the two samples decoded from them.
pub struct ConsecutivePresenceModelV1 {
    pub previous_frame: Seq<u8>,
    pub current_frame: Seq<u8>,
    pub previous: EndpointSampleModelV1,
    pub current: EndpointSampleModelV1,
}

/// Borrowed, untrusted canonical persistent consecutive-presence semantics.
#[derive(Debug)]
pub struct DecodedConsecutiveSampledPresenceV1<'a> {
    previous_frame: &'a [u8],
    current_frame: &'a [u8],
    previous: DecodedEndpointSampleV1<'a>,
    current: DecodedEndpointSampleV1<'a>,
}

impl<'a> View for DecodedConsecutiveSampledPresenceV1<'a> {
    type V = ConsecutivePresenceModelV1;

    closed spec fn view(&self) -> ConsecutivePresenceModelV1 {
        ConsecutivePresenceModelV1 {
            previous_frame: self.previous_frame@,
            current_frame: self.current_frame@,
            previous: self.previous@,
            current: self.current@,
        }
    }
}

impl<'a> DecodedConsecutiveSampledPresenceV1<'a> {
    pub fn previous_frame(&self) -> (r: &'a [u8])
        ensures
            r@ == self@.previous_frame,
    {
        self.previous_frame
    }

    pub fn current_frame(&self) -> (r: &'a [u8])
        ensures
            r@ == self@.current_frame,
    {
        self.current_frame
    }

    pub fn previous(&self) -> (r: &DecodedEndpointSampleV1<'a>)
        ensures
            r@ == self@.previous,
    {
        &self.previous
    }

    pub fn current(&self) -> (r: &DecodedEndpointSampleV1<'a>)
        ensures
            r@ == self@.current,
    {
        &self.current
    }
}

/// The two embedded endpoint frames handed over are the ones the relation
/// payload holds, and each is itself consistently handed over.
pub open spec fn relation_inputs_consistent<F>(
    frame: EvidenceFrameV1<'_>,
    previous: EndpointSampleFrameV1<'_, F>,
    current: EndpointSampleFrameV1<'_, F>,
) -> bool {
    &&& endpoint_input_consistent(previous)
    &&& endpoint_input_consistent(current)
    &&& consecutive_layout_outcome::<F>(frame.payload@) matches Ok(layout) ==> {
        &&& previous.frame.bytes@ == frame.payload@.subrange(
            layout.previous_start as int,
            layout.previous_end as int,
        )
        &&& current.frame.bytes@ == frame.payload@.subrange(
            layout.current_start as int,
            layout.current_end as int,
        )
    }
}

/// What decoding a relation frame yields, checks taken in order.
#[verifier::opaque]
pub open spec fn consecutive_presence_outcome<F>(
    frame: EvidenceFrameV1<'_>,
    previous: EndpointSampleFrameV1<'_, F>,
    current: EndpointSampleFrameV1<'_, F>,
) -> Result<ConsecutivePresenceModelV1, ConsecutivePresenceCodecV1Error<F>> {
    let layout = consecutive_layout_outcome::<F>(frame.payload@);
    if frame.kind != EvidenceFrameKindV1::ConsecutiveSampledPresence {
        Err(ConsecutivePresenceCodecV1Error::WrongFrameKind { actual: frame.kind })
    } else if layout is Err {
        Err(layout->Err_0)
    } else if endpoint_input_outcome(previous) is Err {
        Err(ConsecutivePresenceCodecV1Error::Endpoint(endpoint_input_outcome(previous)->Err_0))
    } else if endpoint_input_outcome(current) is Err {
        Err(ConsecutivePresenceCodecV1Error::Endpoint(endpoint_input_outcome(current)->Err_0))
    } else if persistent_relation_outcome::<F>(
        endpoint_input_outcome(previous)->Ok_0,
        endpoint_input_outcome(current)->Ok_0,
    ) is Err {
        Err(
            persistent_relation_outcome::<F>(
                endpoint_input_outcome(previous)->Ok_0,
                endpoint_input_outcome(current)->Ok_0,
            )->Err_0,
        )
    } else {
        Ok(
            ConsecutivePresenceModelV1 {
                previous_frame: frame.payload@.subrange(
                    layout->Ok_0.previous_start as int,
                    layout->Ok_0.previous_end as int,
                ),
                current_frame: frame.payload@.subrange(
                    layout->Ok_0.current_start as int,
                    layout->Ok_0.current_end as int,
                ),
                previous: endpoint_input_outcome(previous)->Ok_0,
                current: endpoint_input_outcome(current)->Ok_0,
            },
        )
    }
}

/// Decodes and semantically admits one relation frame. Nothing is allocated
/// from the embedded lengths; each embedded frame goes through the endpoint
/// decoder, then the persistent relation is checked independently.
pub fn decode_consecutive_sampled_presence_v1<'a, F>(
    frame: EvidenceFrameV1<'a>,
    previous: EndpointSampleFrameV1<'a, F>,
    current: EndpointSampleFrameV1<'a, F>,
) -> (res: Result<DecodedConsecutiveSampledPresenceV1<'a>, ConsecutivePresenceCodecV1Error<F>>)
    requires
        relation_inputs_consistent(frame, previous, current),
    ensures
        match res {
            Ok(d) => consecutive_presence_outcome(frame, previous, current) == Ok::<
                ConsecutivePresenceModelV1,
                ConsecutivePresenceCodecV1Error<F>,
            >(d@),
            Err(e) => consecutive_presence_outcome(frame, previous, current) == Err::<
                ConsecutivePresenceModelV1,
                ConsecutivePresenceCodecV1Error<F>,
            >(e),
        },
{
    reveal(consecutive_presence_outcome);
    if frame.kind != EvidenceFrameKindV1::ConsecutiveSampledPresence {
        return Err(ConsecutivePresenceCodecV1Error::WrongFrameKind { actual: frame.kind });
    }
    let payload = frame.payload;
    let layout = match consecutive_presence_layout_v1(payload) {
        Ok(layout) => layout,
        Err(e) => {
            return Err(e);
        },
    };
    let previous_frame = slice_subrange(payload, layout.previous_start, layout.previous_end);
    let current_frame = slice_subrange(payload, layout.current_start, layout.current_end);
    let ghost previous_outcome = endpoint_input_outcome(previous);
    let ghost current_outcome = endpoint_input_outcome(current);
    let previous_sample = match decode_endpoint_sample_v1(previous) {
        Ok(decoded) => decoded,
        Err(e) => {
            return Err(ConsecutivePresenceCodecV1Error::Endpoint(e));
        },
    };
    let current_sample = match decode_endpoint_sample_v1(current) {
        Ok(decoded) => decoded,
        Err(e) => {
            return Err(ConsecutivePresenceCodecV1Error::Endpoint(e));
        },
    };
    match ensure_persistent_relation(&previous_sample, &current_sample) {
        Ok(()) => {},
        Err(e) => {
            return Err(e);
        },
    }
    Ok(
        DecodedConsecutiveSampledPresenceV1 {
            previous_frame,
            current_frame,
            previous: previous_sample,
            current: current_sample,
        },
    )
}

/// The relation payload holding `previous` then `current`, each preceded by its
/// big-endian `u32` length.
pub open spec fn ordered_frames_payload(previous: Seq<u8>, current: Seq<u8>) -> Seq<u8> {
    be_u32(CONSECUTIVE_PRESENCE_PAYLOAD_V1_VERSION) + be_u32(previous.len() as u32) + previous
        + be_u32(current.len() as u32) + current
}

/// What composing the relation payload of two endpoint frames yields.
pub open spec fn ordered_frames_outcome<F>(
    previous: Seq<u8>,
    current: Seq<u8>,
    payload_limit: usize,
) -> Result<Seq<u8>, ConsecutivePresenceCodecV1Error<F>> {
    let len = CONSECUTIVE_PRESENCE_FIXED_V1_LEN + previous.len() + current.len();
    if previous.len() > u32::MAX || current.len() > u32::MAX || len > usize::MAX {
        Err(ConsecutivePresenceCodecV1Error::EmbeddedLengthOverflow)
    } else if len > payload_limit {
        Err(ConsecutivePresenceCodecV1Error::PayloadTooLarge { len: len as usize })
    } else {
        Ok(ordered_frames_payload(previous, current))
    }
}

/// Composes the canonical relation payload of two ordered endpoint frames; the
/// envelope encoder frames it as a relation frame.
pub fn ordered_endpoint_frames_payload_v1<F>(
    previous: &[u8],
    current: &[u8],
    payload_limit: usize,
) -> (res: Result<Vec<u8>, ConsecutivePresenceCodecV1Error<F>>)
    ensures
        match res {
            Ok(p) => ordered_frames_outcome::<F>(previous@, current@, payload_limit) == Ok::<
                Seq<u8>,
                ConsecutivePresenceCodecV1Error<F>,
            >(p@),
            Err(e) => ordered_frames_outcome::<F>(previous@, current@, payload_limit) == Err::<
                Seq<u8>,
                ConsecutivePresenceCodecV1Error<F>,
            >(e),
        },
{
    if previous.len() > 0xffff_ffff || current.len() > 0xffff_ffff {
        return Err(ConsecutivePresenceCodecV1Error::EmbeddedLengthOverflow);
    }
    if previous.len() > usize::MAX - CONSECUTIVE_PRESENCE_FIXED_V1_LEN || current.len()
        > usize::MAX - CONSECUTIVE_PRESENCE_FIXED_V1_LEN - previous.len() {
        return Err(ConsecutivePresenceCodecV1Error::EmbeddedLengthOverflow);
    }
    let payload_len = CONSECUTIVE_PRESENCE_FIXED_V1_LEN + previous.len() + current.len();
    if payload_len > payload_limit {
        return Err(ConsecutivePresenceCodecV1Error::PayloadTooLarge { len: payload_len });
    }
    let mut payload: Vec<u8> = Vec::with_capacity(payload_len);
    push_be_u32(&mut payload, CONSECUTIVE_PRESENCE_PAYLOAD_V1_VERSION);
    push_be_u32(&mut payload, previous.len() as u32);
    push_bytes(&mut payload, previous);
    push_be_u32(&mut payload, current.len() as u32);
    push_bytes(&mut payload, current);
    Ok(payload)
}

/// Slicing a composed relation payload finds exactly the two frames it was
/// composed from.
pub proof fn lemma_ordered_frames_layout<F>(previous: Seq<u8>, current: Seq<u8>)
    requires
        CONSECUTIVE_PRESENCE_FIXED_V1_LEN + previous.len() + current.len() <= usize::MAX,
        previous.len() <= u32::MAX,
        current.len() <= u32::MAX,
    ensures
        ({
            let p = ordered_frames_payload(previous, current);
            &&& consecutive_layout_outcome::<F>(p) is Ok
            &&& p.subrange(
                consecutive_layout_outcome::<F>(p)->Ok_0.previous_start as int,
                consecutive_layout_outcome::<F>(p)->Ok_0.previous_end as int,
            ) == previous
            &&& p.subrange(
                consecutive_layout_outcome::<F>(p)->Ok_0.current_start as int,
                consecutive_layout_outcome::<F>(p)->Ok_0.current_end as int,
            ) == current
        }),
{
    let p = ordered_frames_payload(previous, current);
    let pl = previous.len() as u32;
    let cl = current.len() as u32;
    lemma_be_u32(CONSECUTIVE_PRESENCE_PAYLOAD_V1_VERSION);
    lemma_be_u32(pl);
    lemma_be_u32(cl);
    let pe: int = 8 + previous.len() as int;
    assert(p.subrange(0, 4) =~= be_u32(CONSECUTIVE_PRESENCE_PAYLOAD_V1_VERSION));
    assert(p.subrange(4, 8) =~= be_u32(pl));
    assert(p.subrange(pe, pe + 4) =~= be_u32(cl));
    assert(p.subrange(8, pe) =~= previous);
    assert(p.subrange(pe + 4, p.len() as int) =~= current);
}

/// An admitted persistent relation joins two inside samples of one session,
/// dimension, target, anchor and region, at adjacent steps in order.
pub proof fn lemma_admitted_relation_is_adjacent_presence<F>(
    previous: EndpointSampleModelV1,
    current: EndpointSampleModelV1,
)
    requires
        persistent_relation_outcome::<F>(previous, current) is Ok,
    ensures
        previous.session == current.session,
        previous.dimension == current.dimension,
        previous.target_net_id == current.target_net_id,
        previous.anchor_net_id == current.anchor_net_id,
        forall|axis: int|
            0 <= axis < previous.dimension ==> #[trigger] group_values(previous, 0)[axis]
                == group_values(current, 0)[axis] && group_values(previous, 1)[axis]
                == group_values(current, 1)[axis],
        previous.membership == CanonicalEndpointMembershipV1::Inside,
        current.membership == CanonicalEndpointMembershipV1::Inside,
        current.step_index == previous.step_index + 1,
{
    assert forall|axis: int| 0 <= axis < previous.dimension implies #[trigger] group_values(
        previous,
        0,
    )[axis] == group_values(current, 0)[axis] && group_values(previous, 1)[axis] == group_values(
        current,
        1,
    )[axis] by {
        lemma_no_region_mismatch_upto::<F>(previous, current, 0, axis);
    }
}

/// The two samples of an admitted relation frame have one dimension.
pub proof fn lemma_admitted_relation_same_dimension<F>(
    frame: EvidenceFrameV1<'_>,
    previous: EndpointSampleFrameV1<'_, F>,
    current: EndpointSampleFrameV1<'_, F>,
)
    requires
        consecutive_presence_outcome(frame, previous, current) is Ok,
    ensures
        consecutive_presence_outcome(frame, previous, current)->Ok_0.previous.dimension
            == consecutive_presence_outcome(frame, previous, current)->Ok_0.current.dimension,
{
    reveal(consecutive_presence_outcome);
    lemma_admitted_relation_is_adjacent_presence::<F>(
        endpoint_input_outcome(previous)->Ok_0,
        endpoint_input_outcome(current)->Ok_0,
    );
}

proof fn lemma_no_region_mismatch_upto<F>(
    previous: EndpointSampleModelV1,
    current: EndpointSampleModelV1,
    from: int,
    axis: int,
)
    requires
        0 <= from <= axis < previous.dimension,
        first_region_mismatch::<F>(previous, current, from) is None,
    ensures
        group_values(previous, 0)[axis] == group_values(current, 0)[axis],
        group_values(previous, 1)[axis] == group_values(current, 1)[axis],
    decreases axis - from,
{
    if from < axis {
        lemma_no_region_mismatch_upto::<F>(previous, current, from + 1, axis);
    }
}

proof fn lemma_region_agreement_has_no_mismatch<F>(
    previous: EndpointSampleModelV1,
    current: EndpointSampleModelV1,
    from: int,
)
    requires
        0 <= from,
        forall|axis: int|
            0 <= axis < previous.dimension ==> #[trigger] group_values(previous, 0)[axis]
                == group_values(current, 0)[axis] && group_values(previous, 1)[axis]
                == group_values(current, 1)[axis],
    ensures
        first_region_mismatch::<F>(previous, current, from) is None,
    decreases previous.dimension - from,
{
    if from < previous.dimension {
        assert(group_values(previous, 0)[from] == group_values(current, 0)[from]);
        lemma_region_agreement_has_no_mismatch::<F>(previous, current, from + 1);
    }
}

/// Completeness of the persistent relation: two inside samples of one
/// session, dimension, target, anchor and region, the second one step after
/// the first, are admitted as consecutive presence.
pub proof fn lemma_adjacent_presence_is_admitted<F>(
    previous: EndpointSampleModelV1,
    current: EndpointSampleModelV1,
)
    requires
        previous.session == current.session,
        previous.dimension == current.dimension,
        previous.target_net_id == current.target_net_id,
        previous.anchor_net_id == current.anchor_net_id,
        forall|axis: int|
            0 <= axis < previous.dimension ==> #[trigger] group_values(previous, 0)[axis]
                == group_values(current, 0)[axis] && group_values(previous, 1)[axis]
                == group_values(current, 1)[axis],
        previous.membership == CanonicalEndpointMembershipV1::Inside,
        current.membership == CanonicalEndpointMembershipV1::Inside,
        current.step_index == previous.step_index + 1,
    ensures
        persistent_relation_outcome::<F>(previous, current) is Ok,
{
    lemma_region_agreement_has_no_mismatch::<F>(previous, current, 0);
}

} // verus!
