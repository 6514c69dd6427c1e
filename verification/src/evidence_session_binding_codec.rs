//! Canonical semantic codec for evidence-session bindings.
//!
//! Encoding starts only from a qualified binding; decoding returns an untrusted
//! plain record and never recreates a qualified binding or live session.
use crate::be_bytes::{
    be_u128, be_u32, be_u64, lemma_be_u128, lemma_be_u32, lemma_be_u64, push_be_u128, push_be_u32,
    push_be_u64, push_bytes, read_be_u128, read_be_u32, read_be_u64, u128_from_be, u32_from_be,
    u64_from_be, lemma_u128_from_be, lemma_u32_from_be, lemma_u64_from_be,
};
use crate::evidence_session::{
    all_zero, EvidenceSessionProfileV1, QualifiedEvidenceSessionBinding, EVIDENCE_SESSION_ID_LEN,
};
use crate::frame::{EvidenceFrameKindV1, EvidenceFrameV1};
use vstd::prelude::*;
use vstd::slice::slice_subrange;

verus! {

pub const EVIDENCE_SESSION_BINDING_PAYLOAD_V1_VERSION: u32 = 1;

pub const EVIDENCE_SESSION_BINDING_PAYLOAD_V1_LEN: usize = 80;

/// The fields of one session binding as plain values.
pub struct SessionBindingFieldsV1 {
    pub session_id: Seq<u8>,
    pub physical_authority: u128,
    pub world_generation: u128,
    pub temporal_incarnation: u64,
    pub profile_code: u32,
}

/// The canonical 80-byte binding payload: version, session ID, authority,
/// generation, incarnation and profile code, each big-endian.
pub open spec fn binding_payload_v1(f: SessionBindingFieldsV1) -> Seq<u8> {
    be_u32(EVIDENCE_SESSION_BINDING_PAYLOAD_V1_VERSION) + f.session_id + be_u128(
        f.physical_authority,
    ) + be_u128(f.world_generation) + be_u64(f.temporal_incarnation) + be_u32(f.profile_code)
}

/// Fields that the decoder admits: a 32-byte non-zero session ID, non-zero
/// identifiers and the one known session profile.
pub open spec fn binding_fields_admissible_v1(f: SessionBindingFieldsV1) -> bool {
    &&& f.session_id.len() == EVIDENCE_SESSION_ID_LEN
    &&& !all_zero(f.session_id)
    &&& f.physical_authority != 0
    &&& f.world_generation != 0
    &&& f.temporal_incarnation != 0
    &&& f.profile_code == EvidenceSessionProfileV1::OsCsprngBoundLiveIncarnation.spec_code()
}

/// Untrusted canonically decoded session-binding semantics.
#[derive(Copy, Clone, Debug, PartialEq, Eq, Hash)]
pub struct DecodedEvidenceSessionBindingV1 {
    session_id_bytes: [u8; EVIDENCE_SESSION_ID_LEN],
    physical_authority_raw: u128,
    world_generation_raw: u128,
    temporal_incarnation_raw: u64,
    session_profile_code: u32,
}

impl View for DecodedEvidenceSessionBindingV1 {
    type V = SessionBindingFieldsV1;

    closed spec fn view(&self) -> SessionBindingFieldsV1 {
        SessionBindingFieldsV1 {
            session_id: self.session_id_bytes@,
            physical_authority: self.physical_authority_raw,
            world_generation: self.world_generation_raw,
            temporal_incarnation: self.temporal_incarnation_raw,
            profile_code: self.session_profile_code,
        }
    }
}

impl DecodedEvidenceSessionBindingV1 {
    /// A decoded binding always holds a session ID of the fixed length.
    pub proof fn lemma_session_id_len(&self)
        ensures
            self@.session_id.len() == EVIDENCE_SESSION_ID_LEN,
    {
    }

    pub fn session_id_bytes(&self) -> (r: &[u8; EVIDENCE_SESSION_ID_LEN])
        ensures
            r@ == self@.session_id,
            r@.len() == EVIDENCE_SESSION_ID_LEN,
    {
        &self.session_id_bytes
    }

    pub fn physical_authority_raw(&self) -> (r: u128)
        ensures
            r == self@.physical_authority,
    {
        self.physical_authority_raw
    }

    pub fn world_generation_raw(&self) -> (r: u128)
        ensures
            r == self@.world_generation,
    {
        self.world_generation_raw
    }

    pub fn temporal_incarnation_raw(&self) -> (r: u64)
        ensures
            r == self@.temporal_incarnation,
    {
        self.temporal_incarnation_raw
    }

    pub fn session_profile_code(&self) -> (r: u32)
        ensures
            r == self@.profile_code,
    {
        self.session_profile_code
    }
}

/// Why a session-binding frame was refused. `Frame` carries the envelope
/// decoder's own error for a frame that it refused.
#[derive(Clone, Debug, PartialEq, Eq)]
pub enum EvidenceSessionBindingCodecV1Error<F> {
    Frame(F),
    WrongFrameKind { actual: EvidenceFrameKindV1 },
    WrongPayloadLength { actual: usize },
    UnsupportedPayloadVersion { version: u32 },
    ZeroSessionId,
    ZeroPhysicalAuthorityId,
    ZeroWorldGenerationId,
    ZeroTemporalIncarnationId,
    UnknownSessionProfile { code: u32 },
}

/// What decoding the binding payload `p` yields, checks taken in order.
pub open spec fn binding_payload_outcome_v1<F>(p: Seq<u8>) -> Result<
    SessionBindingFieldsV1,
    EvidenceSessionBindingCodecV1Error<F>,
> {
    let version = u32_from_be(p.subrange(0, 4));
    let session_id = p.subrange(4, 36);
    let authority = u128_from_be(p.subrange(36, 52));
    let generation = u128_from_be(p.subrange(52, 68));
    let incarnation = u64_from_be(p.subrange(68, 76));
    let profile = u32_from_be(p.subrange(76, 80));
    if p.len() != EVIDENCE_SESSION_BINDING_PAYLOAD_V1_LEN {
        Err(EvidenceSessionBindingCodecV1Error::WrongPayloadLength { actual: p.len() as usize })
    } else if version != EVIDENCE_SESSION_BINDING_PAYLOAD_V1_VERSION {
        Err(EvidenceSessionBindingCodecV1Error::UnsupportedPayloadVersion { version })
    } else if all_zero(session_id) {
        Err(EvidenceSessionBindingCodecV1Error::ZeroSessionId)
    } else if authority == 0 {
        Err(EvidenceSessionBindingCodecV1Error::ZeroPhysicalAuthorityId)
    } else if generation == 0 {
        Err(EvidenceSessionBindingCodecV1Error::ZeroWorldGenerationId)
    } else if incarnation == 0 {
        Err(EvidenceSessionBindingCodecV1Error::ZeroTemporalIncarnationId)
    } else if profile != EvidenceSessionProfileV1::OsCsprngBoundLiveIncarnation.spec_code() {
        Err(EvidenceSessionBindingCodecV1Error::UnknownSessionProfile { code: profile })
    } else {
        Ok(
            SessionBindingFieldsV1 {
                session_id,
                physical_authority: authority,
                world_generation: generation,
                temporal_incarnation: incarnation,
                profile_code: profile,
            },
        )
    }
}

/// What decoding a session-binding frame of kind `kind` with payload `p` yields.
pub open spec fn binding_frame_outcome_v1<F>(kind: EvidenceFrameKindV1, p: Seq<u8>) -> Result<
    SessionBindingFieldsV1,
    EvidenceSessionBindingCodecV1Error<F>,
> {
    if kind != EvidenceFrameKindV1::EvidenceSessionBinding {
        Err(EvidenceSessionBindingCodecV1Error::WrongFrameKind { actual: kind })
    } else {
        binding_payload_outcome_v1(p)
    }
}

proof fn lemma_binding_payload_layout(f: SessionBindingFieldsV1)
    requires
        f.session_id.len() == EVIDENCE_SESSION_ID_LEN,
    ensures
        ({
            let p = binding_payload_v1(f);
            &&& p.len() == EVIDENCE_SESSION_BINDING_PAYLOAD_V1_LEN
            &&& p.subrange(0, 4) == be_u32(EVIDENCE_SESSION_BINDING_PAYLOAD_V1_VERSION)
            &&& p.subrange(4, 36) == f.session_id
            &&& p.subrange(36, 52) == be_u128(f.physical_authority)
            &&& p.subrange(52, 68) == be_u128(f.world_generation)
            &&& p.subrange(68, 76) == be_u64(f.temporal_incarnation)
            &&& p.subrange(76, 80) == be_u32(f.profile_code)
        }),
{
    lemma_be_u32(EVIDENCE_SESSION_BINDING_PAYLOAD_V1_VERSION);
    lemma_be_u128(f.physical_authority);
    lemma_be_u128(f.world_generation);
    lemma_be_u64(f.temporal_incarnation);
    lemma_be_u32(f.profile_code);
    let p = binding_payload_v1(f);
    assert(p.subrange(0, 4) =~= be_u32(EVIDENCE_SESSION_BINDING_PAYLOAD_V1_VERSION));
    assert(p.subrange(4, 36) =~= f.session_id);
    assert(p.subrange(36, 52) =~= be_u128(f.physical_authority));
    assert(p.subrange(52, 68) =~= be_u128(f.world_generation));
    assert(p.subrange(68, 76) =~= be_u64(f.temporal_incarnation));
    assert(p.subrange(76, 80) =~= be_u32(f.profile_code));
}

/// Decoding the canonical payload of admissible fields gives those fields back.
pub proof fn lemma_binding_payload_decodes_to_fields<F>(f: SessionBindingFieldsV1)
    requires
        binding_fields_admissible_v1(f),
    ensures
        binding_payload_outcome_v1::<F>(binding_payload_v1(f)) == Ok::<
            SessionBindingFieldsV1,
            EvidenceSessionBindingCodecV1Error<F>,
        >(f),
{
    lemma_binding_payload_layout(f);
    lemma_be_u32(EVIDENCE_SESSION_BINDING_PAYLOAD_V1_VERSION);
    lemma_be_u128(f.physical_authority);
    lemma_be_u128(f.world_generation);
    lemma_be_u64(f.temporal_incarnation);
    lemma_be_u32(f.profile_code);
}

/// A payload that decodes is exactly the canonical payload of the decoded fields,
/// and those fields are admissible.
pub proof fn lemma_binding_decoded_payload_is_canonical<F>(p: Seq<u8>)
    requires
        binding_payload_outcome_v1::<F>(p) is Ok,
    ensures
        binding_payload_v1(binding_payload_outcome_v1::<F>(p)->Ok_0) == p,
        binding_fields_admissible_v1(binding_payload_outcome_v1::<F>(p)->Ok_0),
{
    let f = binding_payload_outcome_v1::<F>(p)->Ok_0;
    lemma_u32_from_be(p.subrange(0, 4));
    lemma_u128_from_be(p.subrange(36, 52));
    lemma_u128_from_be(p.subrange(52, 68));
    lemma_u64_from_be(p.subrange(68, 76));
    lemma_u32_from_be(p.subrange(76, 80));
    assert(p =~= p.subrange(0, 4) + p.subrange(4, 36) + p.subrange(36, 52) + p.subrange(52, 68)
        + p.subrange(68, 76) + p.subrange(76, 80));
}

/// The canonical payload determines its fields: different fields never share a payload.
pub proof fn lemma_binding_payload_injective(f1: SessionBindingFieldsV1, f2: SessionBindingFieldsV1)
    requires
        f1.session_id.len() == EVIDENCE_SESSION_ID_LEN,
        f2.session_id.len() == EVIDENCE_SESSION_ID_LEN,
        binding_payload_v1(f1) == binding_payload_v1(f2),
    ensures
        f1 == f2,
{
    lemma_binding_payload_layout(f1);
    lemma_binding_payload_layout(f2);
    lemma_be_u128(f1.physical_authority);
    lemma_be_u128(f2.physical_authority);
    lemma_be_u128(f1.world_generation);
    lemma_be_u128(f2.world_generation);
    lemma_be_u64(f1.temporal_incarnation);
    lemma_be_u64(f2.temporal_incarnation);
    lemma_be_u32(f1.profile_code);
    lemma_be_u32(f2.profile_code);
}

/// Whether a decoding result is exactly the given outcome.
pub open spec fn binding_result_is<F>(
    res: Result<DecodedEvidenceSessionBindingV1, EvidenceSessionBindingCodecV1Error<F>>,
    outcome: Result<SessionBindingFieldsV1, EvidenceSessionBindingCodecV1Error<F>>,
) -> bool {
    match res {
        Ok(d) => outcome == Ok::<SessionBindingFieldsV1, EvidenceSessionBindingCodecV1Error<F>>(d@),
        Err(e) => outcome == Err::<SessionBindingFieldsV1, EvidenceSessionBindingCodecV1Error<F>>(e),
    }
}

fn copy_into(buf: &mut [u8; EVIDENCE_SESSION_BINDING_PAYLOAD_V1_LEN], at: usize, src: &[u8])
    requires
        at + src@.len() <= EVIDENCE_SESSION_BINDING_PAYLOAD_V1_LEN,
    ensures
        final(buf)@ == old(buf)@.subrange(0, at as int) + src@ + old(buf)@.subrange(
            at + src@.len(),
            EVIDENCE_SESSION_BINDING_PAYLOAD_V1_LEN as int,
        ),
{
    let ghost before = buf@;
    let mut i: usize = 0;
    while i < src.len()
        invariant
            at + src@.len() <= EVIDENCE_SESSION_BINDING_PAYLOAD_V1_LEN,
            i <= src@.len(),
            buf@.len() == EVIDENCE_SESSION_BINDING_PAYLOAD_V1_LEN,
            before.len() == EVIDENCE_SESSION_BINDING_PAYLOAD_V1_LEN,
            forall|j: int| 0 <= j < at ==> #[trigger] buf@[j] == before[j],
            forall|j: int| 0 <= j < i ==> #[trigger] buf@[at + j] == src@[j],
            forall|j: int|
                at + i <= j < EVIDENCE_SESSION_BINDING_PAYLOAD_V1_LEN ==> #[trigger] buf@[j]
                    == before[j],
        decreases src@.len() - i,
    {
        buf[at + i] = src[i];
        i = i + 1;
    }
    let ghost rhs = before.subrange(0, at as int) + src@ + before.subrange(
        at + src@.len(),
        EVIDENCE_SESSION_BINDING_PAYLOAD_V1_LEN as int,
    );
    assert forall|k: int| 0 <= k < EVIDENCE_SESSION_BINDING_PAYLOAD_V1_LEN implies buf@[k]
        == rhs[k] by {
        if at <= k < at + src@.len() {
            assert(buf@[at + (k - at)] == src@[k - at]);
        }
    }
    assert(buf@ =~= rhs);
}

/// Canonical binding payload for the given plain field values.
pub fn encode_binding_payload_fields_v1(
    session_id_bytes: [u8; EVIDENCE_SESSION_ID_LEN],
    physical_authority_raw: u128,
    world_generation_raw: u128,
    temporal_incarnation_raw: u64,
    session_profile_code: u32,
) -> (r: [u8; EVIDENCE_SESSION_BINDING_PAYLOAD_V1_LEN])
    ensures
        r@ == binding_payload_v1(
            SessionBindingFieldsV1 {
                session_id: session_id_bytes@,
                physical_authority: physical_authority_raw,
                world_generation: world_generation_raw,
                temporal_incarnation: temporal_incarnation_raw,
                profile_code: session_profile_code,
            },
        ),
{
    let mut fields: Vec<u8> = Vec::new();
    push_be_u32(&mut fields, EVIDENCE_SESSION_BINDING_PAYLOAD_V1_VERSION);
    push_bytes(&mut fields, &session_id_bytes);
    push_be_u128(&mut fields, physical_authority_raw);
    push_be_u128(&mut fields, world_generation_raw);
    push_be_u64(&mut fields, temporal_incarnation_raw);
    push_be_u32(&mut fields, session_profile_code);
    proof {
        lemma_be_u32(EVIDENCE_SESSION_BINDING_PAYLOAD_V1_VERSION);
        lemma_be_u128(physical_authority_raw);
        lemma_be_u128(world_generation_raw);
        lemma_be_u64(temporal_incarnation_raw);
        lemma_be_u32(session_profile_code);
    }
    let mut payload = [0u8; EVIDENCE_SESSION_BINDING_PAYLOAD_V1_LEN];
    copy_into(&mut payload, 0, fields.as_slice());
    assert(payload@ =~= fields@);
    payload
}

/// Canonical binding payload of one qualified binding.
pub fn qualified_evidence_session_binding_payload_v1(binding: &QualifiedEvidenceSessionBinding) -> (r: [u8; EVIDENCE_SESSION_BINDING_PAYLOAD_V1_LEN])
    ensures
        r@ == binding_payload_v1(
            SessionBindingFieldsV1 {
                session_id: binding.spec_session_id(),
                physical_authority: binding.spec_physical_authority_id(),
                world_generation: binding.spec_world_generation_id(),
                temporal_incarnation: binding.spec_temporal_incarnation_id(),
                profile_code: binding.spec_profile().spec_code(),
            },
        ),
        binding_fields_admissible_v1(
            SessionBindingFieldsV1 {
                session_id: binding.spec_session_id(),
                physical_authority: binding.spec_physical_authority_id(),
                world_generation: binding.spec_world_generation_id(),
                temporal_incarnation: binding.spec_temporal_incarnation_id(),
                profile_code: binding.spec_profile().spec_code(),
            },
        ),
{
    let profile = binding.profile();
    let code = profile.code();
    assert(code == 1) by {
        match profile {
            EvidenceSessionProfileV1::OsCsprngBoundLiveIncarnation => {},
        }
    }
    encode_binding_payload_fields_v1(
        binding.session_id().to_bytes(),
        binding.physical_authority_id(),
        binding.world_generation_id(),
        binding.temporal_incarnation_id(),
        code,
    )
}

fn all_zero_bytes(bytes: &[u8]) -> (r: bool)
    ensures
        r == all_zero(bytes@),
{
    let mut i: usize = 0;
    while i < bytes.len()
        invariant
            i <= bytes@.len(),
            forall|j: int| 0 <= j < i ==> #[trigger] bytes@[j] == 0,
        decreases bytes@.len() - i,
    {
        if bytes[i] != 0 {
            return false;
        }
        i = i + 1;
    }
    true
}

fn copy_session_id(bytes: &[u8]) -> (r: [u8; EVIDENCE_SESSION_ID_LEN])
    requires
        bytes@.len() == EVIDENCE_SESSION_ID_LEN,
    ensures
        r@ == bytes@,
{
    let mut out = [0u8; EVIDENCE_SESSION_ID_LEN];
    let mut i: usize = 0;
    while i < EVIDENCE_SESSION_ID_LEN
        invariant
            i <= EVIDENCE_SESSION_ID_LEN,
            bytes@.len() == EVIDENCE_SESSION_ID_LEN,
            out@.len() == EVIDENCE_SESSION_ID_LEN,
            forall|j: int| 0 <= j < i ==> #[trigger] out@[j] == bytes@[j],
        decreases EVIDENCE_SESSION_ID_LEN - i,
    {
        out[i] = bytes[i];
        i = i + 1;
    }
    assert(out@ =~= bytes@);
    out
}

/// Decodes one binding payload into an untrusted plain record.
pub fn decode_binding_payload_v1<F>(payload: &[u8]) -> (res: Result<
    DecodedEvidenceSessionBindingV1,
    EvidenceSessionBindingCodecV1Error<F>,
>)
    ensures
        binding_result_is(res, binding_payload_outcome_v1::<F>(payload@)),
{
    if payload.len() != EVIDENCE_SESSION_BINDING_PAYLOAD_V1_LEN {
        return Err(EvidenceSessionBindingCodecV1Error::WrongPayloadLength { actual: payload.len() });
    }
    let version = read_be_u32(slice_subrange(payload, 0, 4));
    if version != EVIDENCE_SESSION_BINDING_PAYLOAD_V1_VERSION {
        return Err(EvidenceSessionBindingCodecV1Error::UnsupportedPayloadVersion { version });
    }
    let session_id = slice_subrange(payload, 4, 36);
    if all_zero_bytes(session_id) {
        return Err(EvidenceSessionBindingCodecV1Error::ZeroSessionId);
    }
    let session_id_bytes = copy_session_id(session_id);
    let physical_authority_raw = read_be_u128(slice_subrange(payload, 36, 52));
    if physical_authority_raw == 0 {
        return Err(EvidenceSessionBindingCodecV1Error::ZeroPhysicalAuthorityId);
    }
    let world_generation_raw = read_be_u128(slice_subrange(payload, 52, 68));
    if world_generation_raw == 0 {
        return Err(EvidenceSessionBindingCodecV1Error::ZeroWorldGenerationId);
    }
    let temporal_incarnation_raw = read_be_u64(slice_subrange(payload, 68, 76));
    if temporal_incarnation_raw == 0 {
        return Err(EvidenceSessionBindingCodecV1Error::ZeroTemporalIncarnationId);
    }
    let session_profile_code = read_be_u32(slice_subrange(payload, 76, 80));
    if session_profile_code != EvidenceSessionProfileV1::OsCsprngBoundLiveIncarnation.code() {
        return Err(
            EvidenceSessionBindingCodecV1Error::UnknownSessionProfile { code: session_profile_code },
        );
    }
    Ok(
        DecodedEvidenceSessionBindingV1 {
            session_id_bytes,
            physical_authority_raw,
            world_generation_raw,
            temporal_incarnation_raw,
            session_profile_code,
        },
    )
}

/// Decodes a session-binding frame, handed over by the envelope decoder, into
/// an untrusted plain record. A frame of another kind is refused first.
pub fn decode_evidence_session_binding_v1<F>(frame: EvidenceFrameV1<'_>) -> (res: Result<
    DecodedEvidenceSessionBindingV1,
    EvidenceSessionBindingCodecV1Error<F>,
>)
    ensures
        binding_result_is(res, binding_frame_outcome_v1::<F>(frame.kind, frame.payload@)),
{
    if frame.kind != EvidenceFrameKindV1::EvidenceSessionBinding {
        return Err(EvidenceSessionBindingCodecV1Error::WrongFrameKind { actual: frame.kind });
    }
    decode_binding_payload_v1(frame.payload)
}

} // verus!
