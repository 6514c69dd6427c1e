use symtropy_evidence::consecutive_claim_identity::{
    classify_consecutive_presence_frames_v1, compare_consecutive_presence_claims_v1,
    derive_consecutive_presence_claim_v1, CanonicalConsecutivePresenceClaimV1,
    ConsecutivePresenceClaimComparisonV1,
};
use symtropy_evidence::consecutive_presence_codec::{
    decode_consecutive_sampled_presence_v1, ordered_endpoint_frames_payload_v1,
    ConsecutivePresenceCodecV1Error,
};
use symtropy_evidence::endpoint_claim_identity::{
    classify_endpoint_sample_frames_v1, compare_endpoint_sample_claims_v1,
    derive_endpoint_sample_claim_v1, CanonicalEndpointSampleClaimV1,
    EndpointSampleClaimComparisonV1, EndpointSampleClaimIdentityV1Error,
    ENDPOINT_SAMPLE_CLAIM_POSITION_V1_MAGIC, ENDPOINT_SAMPLE_CLAIM_V1_DOMAIN,
    ENDPOINT_SAMPLE_CLAIM_VALUE_V1_MAGIC,
};
use symtropy_evidence::endpoint_sample_codec::{
    decode_endpoint_sample_v1, encode_endpoint_payload_fields_v1, endpoint_payload_len_v1,
    CanonicalEndpointMembershipV1, EndpointSampleCodecV1Error, EndpointSampleFrameV1,
    ANCHOR_NET_ID_START, ARRAYS_START, ARRAY_GROUPS, MEMBERSHIP_START, OFFSET_FROM_CENTER_GROUP,
    REGION_CENTER_GROUP, STEP_INDEX_START, TARGET_NET_ID_START, TARGET_TRANSLATION_GROUP,
};
use symtropy_evidence::evidence_session::{
    mint_os_csprng_session_id, mint_session_id_with, EvidenceSessionBootstrapError,
    EvidenceSessionProfileV1, QualifiedEvidenceSessionBinding, EVIDENCE_SESSION_ID_LEN,
};
use symtropy_evidence::evidence_session_binding_codec::{
    decode_binding_payload_v1, decode_evidence_session_binding_v1,
    encode_binding_payload_fields_v1, qualified_evidence_session_binding_payload_v1,
    EvidenceSessionBindingCodecV1Error, EVIDENCE_SESSION_BINDING_PAYLOAD_V1_LEN,
};
use symtropy_evidence::frame::{EvidenceFrameKindV1, EvidenceFrameV1};
use symtropy_evidence::qualified_persistent_endpoint::{
    encode_qualified_endpoint_token_v1, ensure_exact_match, EndpointBodySubjectV1,
    QualifiedEndpointObservationV1, QualifiedPersistentEndpointSampleV1Error,
};
use symtropy_evidence::semantic_commitment_preimage::{
    build_preimages_v1, consecutive_presence_commitment_preimages_v1,
    endpoint_sample_commitment_preimages_v1, SemanticClaimProfileV1,
    SEMANTIC_COMMITMENT_PREIMAGE_V1_MAGIC,
};

// ---------------------------------------------------------------------------
// Golden vectors.
// ---------------------------------------------------------------------------

const BINDING_GOLDEN_PAYLOAD_HEX: &str = "00000001000102030405060708090a0b0c0d0e0f101112131415161718191a1b1c1d1e1f0102030405060708090a0b0c0d0e0f101112131415161718191a1b1c1d1e1f20212223242526272800000001";
const BINDING_GOLDEN_FRAME_HEX: &str = "73796d74726f70792d706879736963732d65766964656e63650065766964656e63652d73657373696f6e2d62696e64696e670000000001000000000000005000000001000102030405060708090a0b0c0d0e0f101112131415161718191a1b1c1d1e1f0102030405060708090a0b0c0d0e0f101112131415161718191a1b1c1d1e1f20212223242526272800000001";
const GOLDEN_SESSION_FRAME_HEX: &str = "73796d74726f70792d706879736963732d65766964656e63650065766964656e63652d73657373696f6e2d62696e64696e670000000001000000000000005000000001000102030405060708090a0b0c0d0e0f101112131415161718191a1b1c1d1e1f0102030405060708090a0b0c0d0e0f101112131415161718191a1b1c1d1e1f20212223242526272800000001";
const GOLDEN_PAYLOAD_HEX: &str = "000000010003008f73796d74726f70792d706879736963732d65766964656e63650065766964656e63652d73657373696f6e2d62696e64696e670000000001000000000000005000000001000102030405060708090a0b0c0d0e0f101112131415161718191a1b1c1d1e1f0102030405060708090a0b0c0d0e0f101112131415161718191a1b1c1d1e1f202122232425262728000000010000000000000001010203040506070811121314151617180100000000000000003fe0000000000000bfe000000000000040000000000000004008000000000000401000000000000040260000000000004036000000000000403b00000000000040240000000000004034000000000000403e00000000000040240000000000004034800000000000403d8000000000003ff00000000000003ff8000000000000c004000000000000";
const GOLDEN_ENDPOINT_FRAME_HEX: &str = "73796d74726f70792d706879736963732d65766964656e636500656e64706f696e742d73616d706c6500000000010000000000000140000000010003008f73796d74726f70792d706879736963732d65766964656e63650065766964656e63652d73657373696f6e2d62696e64696e670000000001000000000000005000000001000102030405060708090a0b0c0d0e0f101112131415161718191a1b1c1d1e1f0102030405060708090a0b0c0d0e0f101112131415161718191a1b1c1d1e1f202122232425262728000000010000000000000001010203040506070811121314151617180100000000000000003fe0000000000000bfe000000000000040000000000000004008000000000000401000000000000040260000000000004036000000000000403b00000000000040240000000000004034000000000000403e00000000000040240000000000004034800000000000403d8000000000003ff00000000000003ff8000000000000c004000000000000";
const GOLDEN_POSITION_HEX: &str = "73796d74726f70792d706879736963732d636c61696d2d706f736974696f6e00656e64706f696e742d73616d706c652d763100000000010003000102030405060708090a0b0c0d0e0f101112131415161718191a1b1c1d1e1f0102030405060708090a0b0c0d0e0f101112131415161718191a1b1c1d1e1f2021222324252627280000000100000000000000010102030405060708111213141516171800000000000000003fe0000000000000bfe0000000000000400000000000000040080000000000004010000000000000";
const GOLDEN_VALUE_HEX: &str = "73796d74726f70792d706879736963732d636c61696d2d76616c756500656e64706f696e742d73616d706c652d7631000000000100030140260000000000004036000000000000403b00000000000040240000000000004034000000000000403e00000000000040240000000000004034800000000000403d8000000000003ff00000000000003ff8000000000000c004000000000000";
const GOLDEN_DERIVED_POSITION_HEX: &str = "73796d74726f70792d706879736963732d636c61696d2d706f736974696f6e00636f6e73656375746976652d70726573656e63652d76310000000001000000cd73796d74726f70792d706879736963732d636c61696d2d706f736974696f6e00656e64706f696e742d73616d706c652d763100000000010003000102030405060708090a0b0c0d0e0f101112131415161718191a1b1c1d1e1f0102030405060708090a0b0c0d0e0f101112131415161718191a1b1c1d1e1f2021222324252627280000000100000000000000010102030405060708111213141516171800000000000000003fe0000000000000bfe0000000000000400000000000000040080000000000004010000000000000000000cd73796d74726f70792d706879736963732d636c61696d2d706f736974696f6e00656e64706f696e742d73616d706c652d763100000000010003000102030405060708090a0b0c0d0e0f101112131415161718191a1b1c1d1e1f0102030405060708090a0b0c0d0e0f101112131415161718191a1b1c1d1e1f2021222324252627280000000100000000000000020102030405060708111213141516171800000000000000003fe0000000000000bfe0000000000000400000000000000040080000000000004010000000000000";
const GOLDEN_DERIVED_VALUE_HEX: &str = "73796d74726f70792d706879736963732d636c61696d2d76616c756500636f6e73656375746976652d70726573656e63652d763100000000010000009773796d74726f70792d706879736963732d636c61696d2d76616c756500656e64706f696e742d73616d706c652d7631000000000100030140260000000000004036000000000000403b00000000000040240000000000004034000000000000403e00000000000040240000000000004034800000000000403d8000000000003ff00000000000003ff8000000000000c0040000000000000000009773796d74726f70792d706879736963732d636c61696d2d76616c756500656e64706f696e742d73616d706c652d7631000000000100030140260000000000004036000000000000403b00000000000040240000000000004034000000000000403e00000000000040240000000000004034800000000000403d8000000000003ff00000000000003ff8000000000000c004000000000000";

const MEMBERSHIP_OFFSET: usize = 175;
const TARGET_TRANSLATION_X: usize = 224;
const REGION_CENTER_X: usize = 272;
const OFFSET_X: usize = 296;

// ---------------------------------------------------------------------------
// The physics frame envelope, as the physics crate's frame codec lays it out:
// magic, NUL-terminated kind label, big-endian u32 frame version 1, big-endian
// u64 payload length, payload.
// ---------------------------------------------------------------------------

const FRAME_MAGIC: &[u8] = b"symtropy-physics-evidence\0";
const FRAME_PAYLOAD_LIMIT: usize = 1 << 24;

fn kind_label(kind: EvidenceFrameKindV1) -> &'static [u8] {
    match kind {
        EvidenceFrameKindV1::EvidenceSessionBinding => b"evidence-session-binding\0",
        EvidenceFrameKindV1::EndpointSample => b"endpoint-sample\0",
        EvidenceFrameKindV1::ConsecutiveSampledPresence => b"consecutive-presence\0",
    }
}

fn encode_frame(kind: EvidenceFrameKindV1, payload: &[u8]) -> Vec<u8> {
    let mut out = Vec::new();
    out.extend_from_slice(FRAME_MAGIC);
    out.extend_from_slice(kind_label(kind));
    out.extend_from_slice(&1_u32.to_be_bytes());
    out.extend_from_slice(&(payload.len() as u64).to_be_bytes());
    out.extend_from_slice(payload);
    out
}

fn decode_frame(bytes: &[u8]) -> Result<EvidenceFrameV1<'_>, String> {
    if !bytes.starts_with(FRAME_MAGIC) {
        return Err("bad magic".to_string());
    }
    let rest = &bytes[FRAME_MAGIC.len()..];
    let kinds = [
        EvidenceFrameKindV1::EvidenceSessionBinding,
        EvidenceFrameKindV1::EndpointSample,
        EvidenceFrameKindV1::ConsecutiveSampledPresence,
    ];
    let Some(kind) = kinds.into_iter().find(|kind| rest.starts_with(kind_label(*kind))) else {
        return Err("unknown kind".to_string());
    };
    let rest = &rest[kind_label(kind).len()..];
    if rest.len() < 12 || rest[0..4] != 1_u32.to_be_bytes() {
        return Err("bad frame version".to_string());
    }
    let declared = u64::from_be_bytes(rest[4..12].try_into().unwrap()) as usize;
    let payload = &rest[12..];
    if declared != payload.len() {
        return Err("bad payload length".to_string());
    }
    Ok(EvidenceFrameV1 { bytes, kind, payload, payload_limit: FRAME_PAYLOAD_LIMIT })
}

fn frame_payload(frame: &[u8]) -> Vec<u8> {
    decode_frame(frame).unwrap().payload.to_vec()
}

/// IEEE-754 results of anchor translation + center offset and target
/// translation - region center, per axis, as bit patterns.
fn float_witnesses(frame: &[u8]) -> (Vec<u64>, Vec<u64>) {
    let payload = decode_frame(frame).unwrap().payload;
    if payload.len() < ARRAYS_START {
        return (Vec::new(), Vec::new());
    }
    let dimension = u16::from_be_bytes([payload[4], payload[5]]) as usize;
    if payload.len() != ARRAYS_START + 48 * dimension {
        return (Vec::new(), Vec::new());
    }
    let word = |group: usize, axis: usize| {
        let start = ARRAYS_START + (group * dimension + axis) * 8;
        f64::from_bits(u64::from_be_bytes(payload[start..start + 8].try_into().unwrap()))
    };
    let sums = (0..dimension).map(|axis| (word(3, axis) + word(0, axis)).to_bits()).collect();
    let differences =
        (0..dimension).map(|axis| (word(2, axis) - word(4, axis)).to_bits()).collect();
    (sums, differences)
}

fn endpoint_frame<'a>(
    frame: &'a [u8],
    witnesses: &'a (Vec<u64>, Vec<u64>),
) -> EndpointSampleFrameV1<'a, String> {
    let outer = decode_frame(frame).unwrap();
    let session_frame = if outer.payload.len() >= STEP_INDEX_START {
        decode_frame(&outer.payload[8..STEP_INDEX_START])
    } else {
        Err("missing nested frame".to_string())
    };
    EndpointSampleFrameV1 {
        frame: outer,
        session_frame,
        region_center_sums: &witnesses.0,
        offset_differences: &witnesses.1,
    }
}

fn from_hex(hex: &str) -> Vec<u8> {
    assert_eq!(hex.len() % 2, 0);
    (0..hex.len())
        .step_by(2)
        .map(|index| u8::from_str_radix(&hex[index..index + 2], 16).unwrap())
        .collect()
}

fn to_hex(bytes: &[u8]) -> String {
    bytes.iter().map(|byte| format!("{byte:02x}")).collect()
}

fn golden_frame() -> Vec<u8> {
    from_hex(GOLDEN_ENDPOINT_FRAME_HEX)
}

fn binding_golden_payload() -> [u8; EVIDENCE_SESSION_BINDING_PAYLOAD_V1_LEN] {
    let mut sid = [0_u8; EVIDENCE_SESSION_ID_LEN];
    for (index, byte) in sid.iter_mut().enumerate() {
        *byte = index as u8;
    }
    encode_binding_payload_fields_v1(
        sid,
        0x0102_0304_0506_0708_090a_0b0c_0d0e_0f10,
        0x1112_1314_1516_1718_191a_1b1c_1d1e_1f20,
        0x2122_2324_2526_2728,
        1,
    )
}

fn golden_payload() -> Vec<u8> {
    let session = from_hex(GOLDEN_SESSION_FRAME_HEX);
    let center_offset = [0.0_f64.to_bits(), 0.5_f64.to_bits(), (-0.5_f64).to_bits()];
    let half_extents = [2.0_f64.to_bits(), 3.0_f64.to_bits(), 4.0_f64.to_bits()];
    let target_translation = [11.0_f64.to_bits(), 22.0_f64.to_bits(), 27.0_f64.to_bits()];
    let anchor_translation = [10.0_f64.to_bits(), 20.0_f64.to_bits(), 30.0_f64.to_bits()];
    let region_center = [10.0_f64.to_bits(), 20.5_f64.to_bits(), 29.5_f64.to_bits()];
    let offset = [1.0_f64.to_bits(), 1.5_f64.to_bits(), (-2.5_f64).to_bits()];
    let arrays: [&[u64]; ARRAY_GROUPS] = [
        &center_offset,
        &half_extents,
        &target_translation,
        &anchor_translation,
        &region_center,
        &offset,
    ];
    encode_endpoint_payload_fields_v1(
        3,
        &session,
        1,
        0x0102_0304_0506_0708,
        0x1112_1314_1516_1718,
        CanonicalEndpointMembershipV1::Inside,
        arrays,
        endpoint_payload_len_v1::<String>(3, FRAME_PAYLOAD_LIMIT).unwrap(),
    )
}

fn decode_endpoint(frame: &[u8]) -> Result<u64, EndpointSampleCodecV1Error<String>> {
    let witnesses = float_witnesses(frame);
    decode_endpoint_sample_v1(endpoint_frame(frame, &witnesses)).map(|decoded| decoded.step_index())
}

fn endpoint_membership(frame: &[u8]) -> CanonicalEndpointMembershipV1 {
    let witnesses = float_witnesses(frame);
    decode_endpoint_sample_v1(endpoint_frame(frame, &witnesses)).unwrap().membership()
}

fn endpoint_claim(
    frame: &[u8],
) -> Result<CanonicalEndpointSampleClaimV1, EndpointSampleClaimIdentityV1Error<String>> {
    let witnesses = float_witnesses(frame);
    derive_endpoint_sample_claim_v1(endpoint_frame(frame, &witnesses))
}

fn classify_endpoints(first: &[u8], second: &[u8]) -> EndpointSampleClaimComparisonV1 {
    let first_witnesses = float_witnesses(first);
    let second_witnesses = float_witnesses(second);
    classify_endpoint_sample_frames_v1(
        endpoint_frame(first, &first_witnesses),
        endpoint_frame(second, &second_witnesses),
    )
    .unwrap()
}

fn mutate_payload<M>(frame: &[u8], mutate: M) -> Vec<u8>
where
    M: FnOnce(&mut Vec<u8>),
{
    let decoded = decode_frame(frame).unwrap();
    assert_eq!(decoded.kind, EvidenceFrameKindV1::EndpointSample);
    let mut payload = decoded.payload.to_vec();
    mutate(&mut payload);
    encode_frame(EvidenceFrameKindV1::EndpointSample, &payload)
}

fn mutate_nested_session<M>(frame: &[u8], mutate: M) -> Vec<u8>
where
    M: FnOnce(&mut Vec<u8>),
{
    mutate_payload(frame, |payload| {
        let nested = payload[8..151].to_vec();
        let decoded = decode_frame(&nested).unwrap();
        assert_eq!(decoded.kind, EvidenceFrameKindV1::EvidenceSessionBinding);
        let mut session_payload = decoded.payload.to_vec();
        mutate(&mut session_payload);
        let rebuilt = encode_frame(EvidenceFrameKindV1::EvidenceSessionBinding, &session_payload);
        assert_eq!(rebuilt.len(), 143);
        payload[8..151].copy_from_slice(&rebuilt);
    })
}

fn endpoint_with_step(frame: &[u8], step: u64) -> Vec<u8> {
    mutate_payload(frame, |payload| {
        payload[151..159].copy_from_slice(&step.to_be_bytes());
    })
}

fn relation(previous: &[u8], current: &[u8]) -> Vec<u8> {
    let payload =
        ordered_endpoint_frames_payload_v1::<String>(previous, current, FRAME_PAYLOAD_LIMIT)
            .unwrap();
    encode_frame(EvidenceFrameKindV1::ConsecutiveSampledPresence, &payload)
}

/// The two embedded endpoint frames of a well-formed relation frame.
fn relation_parts(frame: &[u8]) -> (Vec<u8>, Vec<u8>) {
    let payload = frame_payload(frame);
    let previous_len = u32::from_be_bytes(payload[4..8].try_into().unwrap()) as usize;
    let previous = payload[8..8 + previous_len].to_vec();
    let current_start = 8 + previous_len + 4;
    let current = payload[current_start..].to_vec();
    (previous, current)
}

fn relation_claim(frame: &[u8]) -> CanonicalConsecutivePresenceClaimV1 {
    let (previous, current) = relation_parts(frame);
    let previous_witnesses = float_witnesses(&previous);
    let current_witnesses = float_witnesses(&current);
    derive_consecutive_presence_claim_v1(
        decode_frame(frame).unwrap(),
        endpoint_frame(&previous, &previous_witnesses),
        endpoint_frame(&current, &current_witnesses),
    )
    .unwrap()
}

fn decode_relation(frame: &[u8]) -> Result<(u64, u64, Vec<u8>, Vec<u8>), ConsecutivePresenceCodecV1Error<String>> {
    let (previous, current) = relation_parts(frame);
    let previous_witnesses = float_witnesses(&previous);
    let current_witnesses = float_witnesses(&current);
    decode_consecutive_sampled_presence_v1(
        decode_frame(frame).unwrap(),
        endpoint_frame(&previous, &previous_witnesses),
        endpoint_frame(&current, &current_witnesses),
    )
    .map(|decoded| {
        (
            decoded.previous().step_index(),
            decoded.current().step_index(),
            decoded.previous_frame().to_vec(),
            decoded.current_frame().to_vec(),
        )
    })
}

fn golden_binding() -> QualifiedEvidenceSessionBinding {
    let mut calls = 0_u8;
    let mut fill = |bytes: &mut [u8; EVIDENCE_SESSION_ID_LEN]| {
        calls += 1;
        for (index, byte) in bytes.iter_mut().enumerate() {
            *byte = index as u8;
        }
        Ok(())
    };
    let id = mint_session_id_with(&mut fill).unwrap();
    assert_eq!(calls, 1);
    QualifiedEvidenceSessionBinding::bind_live(
        id,
        0x0102_0304_0506_0708_090a_0b0c_0d0e_0f10,
        0x1112_1314_1516_1718_191a_1b1c_1d1e_1f20,
        0x2122_2324_2526_2728,
    )
}

fn subject(net_id: u64) -> EndpointBodySubjectV1 {
    EndpointBodySubjectV1 {
        physical_authority_id: 0x0102_0304_0506_0708_090a_0b0c_0d0e_0f10,
        world_generation_id: 0x1112_1314_1516_1718_191a_1b1c_1d1e_1f20,
        net_id,
    }
}

/// The live observation that the golden endpoint sample was produced from.
fn golden_observation() -> QualifiedEndpointObservationV1<3> {
    let anchor = subject(0x1112_1314_1516_1718);
    QualifiedEndpointObservationV1 {
        stamp_physical_authority_id: 0x0102_0304_0506_0708_090a_0b0c_0d0e_0f10,
        stamp_world_generation_id: 0x1112_1314_1516_1718_191a_1b1c_1d1e_1f20,
        stamp_temporal_incarnation_id: 0x2122_2324_2526_2728,
        step_index: 1,
        target: subject(0x0102_0304_0506_0708),
        anchor,
        region_anchor: anchor,
        membership: CanonicalEndpointMembershipV1::Inside,
        center_offset_bits: [0.0_f64.to_bits(), 0.5_f64.to_bits(), (-0.5_f64).to_bits()],
        half_extent_bits: [2.0_f64.to_bits(), 3.0_f64.to_bits(), 4.0_f64.to_bits()],
        target_translation_bits: [11.0_f64.to_bits(), 22.0_f64.to_bits(), 27.0_f64.to_bits()],
        anchor_translation_bits: [10.0_f64.to_bits(), 20.0_f64.to_bits(), 30.0_f64.to_bits()],
        region_center_bits: [10.0_f64.to_bits(), 20.5_f64.to_bits(), 29.5_f64.to_bits()],
        offset_from_center_bits: [1.0_f64.to_bits(), 1.5_f64.to_bits(), (-2.5_f64).to_bits()],
    }
}

fn exact_match(
    binding: &QualifiedEvidenceSessionBinding,
    observation: &QualifiedEndpointObservationV1<3>,
    frame: &[u8],
) -> Result<(), QualifiedPersistentEndpointSampleV1Error<String>> {
    let witnesses = float_witnesses(frame);
    let decoded = decode_endpoint_sample_v1(endpoint_frame(frame, &witnesses)).unwrap();
    ensure_exact_match(binding, observation, &decoded)
}

// ---------------------------------------------------------------------------
// Session-binding codec.
// ---------------------------------------------------------------------------

#[test]
fn evidence_session_binding_codec_private_field_codec_matches_language_neutral_golden_vector() {
    let payload = binding_golden_payload();
    assert_eq!(payload.len(), 80);
    assert_eq!(to_hex(&payload), BINDING_GOLDEN_PAYLOAD_HEX);
    let frame = encode_frame(EvidenceFrameKindV1::EvidenceSessionBinding, &payload);
    assert_eq!(to_hex(&frame), BINDING_GOLDEN_FRAME_HEX);

    let decoded = decode_evidence_session_binding_v1::<String>(decode_frame(&frame).unwrap()).unwrap();
    assert_eq!(decoded.session_id_bytes(), &payload[4..36]);
    let rebuilt = encode_binding_payload_fields_v1(
        *decoded.session_id_bytes(),
        decoded.physical_authority_raw(),
        decoded.world_generation_raw(),
        decoded.temporal_incarnation_raw(),
        decoded.session_profile_code(),
    );
    assert_eq!(rebuilt, payload);
}

#[test]
fn checked_in_vector_corpus_contains_exact_rust_golden_bytes() {
    // The corpus entries are the golden payload and frame: both are what the
    // library produces for the corpus fields.
    assert_eq!(to_hex(&binding_golden_payload()), BINDING_GOLDEN_PAYLOAD_HEX);
    assert_eq!(
        to_hex(&encode_frame(EvidenceFrameKindV1::EvidenceSessionBinding, &binding_golden_payload())),
        BINDING_GOLDEN_FRAME_HEX
    );
}

#[test]
fn production_qualified_binding_encoder_matches_live_binding_exactly() {
    let id = mint_os_csprng_session_id().unwrap();
    let binding = QualifiedEvidenceSessionBinding::bind_live(id, 7, 8, 9);
    let payload = qualified_evidence_session_binding_payload_v1(&binding);
    let frame = encode_frame(EvidenceFrameKindV1::EvidenceSessionBinding, &payload);
    let decoded = decode_evidence_session_binding_v1::<String>(decode_frame(&frame).unwrap()).unwrap();

    assert_eq!(decoded.session_id_bytes(), binding.session_id().as_bytes());
    assert_eq!(decoded.physical_authority_raw(), binding.physical_authority_id());
    assert_eq!(decoded.world_generation_raw(), binding.world_generation_id());
    assert_eq!(decoded.temporal_incarnation_raw(), binding.temporal_incarnation_id());
    assert_eq!(decoded.session_profile_code(), binding.profile().code());
}

#[test]
fn distinct_session_ids_change_canonical_bytes_under_equal_other_fields() {
    let first = encode_binding_payload_fields_v1([0x11; EVIDENCE_SESSION_ID_LEN], 1, 1, 1, 1);
    let second = encode_binding_payload_fields_v1([0x22; EVIDENCE_SESSION_ID_LEN], 1, 1, 1, 1);
    assert_ne!(first, second);
}

#[test]
fn wrong_frame_kind_rejects_before_binding_semantics() {
    let payload = binding_golden_payload();
    let frame = encode_frame(EvidenceFrameKindV1::EndpointSample, &payload);
    assert_eq!(
        decode_evidence_session_binding_v1::<String>(decode_frame(&frame).unwrap()),
        Err(EvidenceSessionBindingCodecV1Error::WrongFrameKind {
            actual: EvidenceFrameKindV1::EndpointSample,
        })
    );
}

fn decode_binding_frame(
    payload: &[u8],
) -> Result<u64, EvidenceSessionBindingCodecV1Error<String>> {
    let frame = encode_frame(EvidenceFrameKindV1::EvidenceSessionBinding, payload);
    decode_evidence_session_binding_v1::<String>(decode_frame(&frame).unwrap())
        .map(|decoded| decoded.temporal_incarnation_raw())
}

#[test]
fn malformed_binding_payloads_fail_closed() {
    assert_eq!(
        decode_binding_frame(&[0_u8; 79]),
        Err(EvidenceSessionBindingCodecV1Error::WrongPayloadLength { actual: 79 })
    );
    assert_eq!(
        decode_binding_frame(&[0_u8; 81]),
        Err(EvidenceSessionBindingCodecV1Error::WrongPayloadLength { actual: 81 })
    );

    let mut bad_version = binding_golden_payload();
    bad_version[0..4].copy_from_slice(&2_u32.to_be_bytes());
    assert_eq!(
        decode_binding_frame(&bad_version),
        Err(EvidenceSessionBindingCodecV1Error::UnsupportedPayloadVersion { version: 2 })
    );

    let mut zero_session = binding_golden_payload();
    zero_session[4..36].fill(0);
    assert_eq!(
        decode_binding_frame(&zero_session),
        Err(EvidenceSessionBindingCodecV1Error::ZeroSessionId)
    );

    let mut zero_authority = binding_golden_payload();
    zero_authority[36..52].fill(0);
    assert_eq!(
        decode_binding_frame(&zero_authority),
        Err(EvidenceSessionBindingCodecV1Error::ZeroPhysicalAuthorityId)
    );

    let mut zero_generation = binding_golden_payload();
    zero_generation[52..68].fill(0);
    assert_eq!(
        decode_binding_frame(&zero_generation),
        Err(EvidenceSessionBindingCodecV1Error::ZeroWorldGenerationId)
    );

    let mut zero_incarnation = binding_golden_payload();
    zero_incarnation[68..76].fill(0);
    assert_eq!(
        decode_binding_frame(&zero_incarnation),
        Err(EvidenceSessionBindingCodecV1Error::ZeroTemporalIncarnationId)
    );

    let mut unknown_profile = binding_golden_payload();
    unknown_profile[76..80].copy_from_slice(&2_u32.to_be_bytes());
    assert_eq!(
        decode_binding_frame(&unknown_profile),
        Err(EvidenceSessionBindingCodecV1Error::UnknownSessionProfile { code: 2 })
    );
}

#[test]
fn binding_payload_decoder_reads_back_golden_fields() {
    let payload = binding_golden_payload();
    let decoded = decode_binding_payload_v1::<String>(&payload).unwrap();
    assert_eq!(decoded.physical_authority_raw(), 0x0102_0304_0506_0708_090a_0b0c_0d0e_0f10);
    assert_eq!(decoded.world_generation_raw(), 0x1112_1314_1516_1718_191a_1b1c_1d1e_1f20);
    assert_eq!(decoded.temporal_incarnation_raw(), 0x2122_2324_2526_2728);
    assert_eq!(decoded.session_profile_code(), 1);
}

// ---------------------------------------------------------------------------
// Session identifiers.
// ---------------------------------------------------------------------------

#[test]
fn bootstrap_binds_nonzero_session_id_to_exact_live_incarnation() {
    let id = mint_os_csprng_session_id().unwrap();
    assert!(id.as_bytes().iter().any(|byte| *byte != 0));
    let binding = QualifiedEvidenceSessionBinding::bind_live(id, 11, 12, 13);
    assert_eq!(binding.session_id().to_bytes(), id.to_bytes());
    assert_eq!(binding.physical_authority_id(), 11);
    assert_eq!(binding.world_generation_id(), 12);
    assert_eq!(binding.temporal_incarnation_id(), 13);
    assert_eq!(binding.profile(), EvidenceSessionProfileV1::OsCsprngBoundLiveIncarnation);
}

#[test]
fn entropy_failure_returns_the_original_live_facade_without_session() {
    let mut fill = |_: &mut [u8; EVIDENCE_SESSION_ID_LEN]| Err(());
    assert_eq!(
        mint_session_id_with(&mut fill).map(|id| id.to_bytes()),
        Err(EvidenceSessionBootstrapError::EntropyUnavailable)
    );
}

#[test]
fn all_zero_entropy_is_retried_and_never_becomes_a_session_id() {
    let mut calls = 0_usize;
    let mut fill = |bytes: &mut [u8; EVIDENCE_SESSION_ID_LEN]| {
        calls += 1;
        if calls == 1 {
            bytes.fill(0);
        } else {
            bytes.fill(0x5a);
        }
        Ok(())
    };
    let id = mint_session_id_with(&mut fill).unwrap();
    assert_eq!(calls, 2);
    assert_eq!(id.to_bytes(), [0x5a; EVIDENCE_SESSION_ID_LEN]);
}

#[test]
fn repeated_zero_entropy_fails_closed_without_binding() {
    let mut calls = 0_usize;
    let mut fill = |bytes: &mut [u8; EVIDENCE_SESSION_ID_LEN]| {
        calls += 1;
        bytes.fill(0);
        Ok(())
    };
    assert_eq!(
        mint_session_id_with(&mut fill).map(|id| id.to_bytes()),
        Err(EvidenceSessionBootstrapError::ZeroSessionIdRetryLimit)
    );
    assert_eq!(calls, 8);
}

#[test]
fn session_profile_code_is_one() {
    assert_eq!(EvidenceSessionProfileV1::OsCsprngBoundLiveIncarnation.code(), 1);
}

// ---------------------------------------------------------------------------
// Endpoint-sample codec.
// ---------------------------------------------------------------------------

#[test]
fn endpoint_sample_codec_private_field_codec_matches_language_neutral_golden_vector() {
    let payload = golden_payload();
    assert_eq!(payload.len(), 320);
    assert_eq!(to_hex(&payload), GOLDEN_PAYLOAD_HEX);
    let frame = encode_frame(EvidenceFrameKindV1::EndpointSample, &payload);
    assert_eq!(to_hex(&frame), GOLDEN_ENDPOINT_FRAME_HEX);
    let witnesses = float_witnesses(&frame);
    let decoded = decode_endpoint_sample_v1(endpoint_frame(&frame, &witnesses)).unwrap();
    assert_eq!(decoded.dimension(), 3);
    assert_eq!(decoded.step_index(), 1);
    assert_eq!(decoded.target_net_id(), 0x0102_0304_0506_0708);
    assert_eq!(decoded.anchor_net_id(), 0x1112_1314_1516_1718);
    assert_eq!(decoded.membership(), CanonicalEndpointMembershipV1::Inside);
    let golden_session = from_hex(GOLDEN_SESSION_FRAME_HEX);
    assert_eq!(decoded.session_binding_frame(), golden_session.as_slice());
}

#[test]
fn fixture_contains_exact_rust_golden_bytes() {
    // The fixture's entries are the golden session frame, payload and frame:
    // each is exactly what the library and the envelope produce.
    let payload = golden_payload();
    assert_eq!(to_hex(&payload[8..151]), GOLDEN_SESSION_FRAME_HEX);
    assert_eq!(to_hex(&payload), GOLDEN_PAYLOAD_HEX);
    assert_eq!(to_hex(&encode_frame(EvidenceFrameKindV1::EndpointSample, &payload)), GOLDEN_ENDPOINT_FRAME_HEX);
}

#[test]
fn production_encoder_captures_inside_established_session() {
    let binding = golden_binding();
    let observation = golden_observation();
    let session_frame = encode_frame(
        EvidenceFrameKindV1::EvidenceSessionBinding,
        &qualified_evidence_session_binding_payload_v1(&binding),
    );
    let payload = encode_qualified_endpoint_token_v1::<String, 3>(
        &binding,
        &observation,
        &session_frame,
        FRAME_PAYLOAD_LIMIT,
    )
    .unwrap();
    let frame = encode_frame(EvidenceFrameKindV1::EndpointSample, &payload);
    assert_eq!(to_hex(&frame), GOLDEN_ENDPOINT_FRAME_HEX);

    let witnesses = float_witnesses(&frame);
    let decoded = decode_endpoint_sample_v1(endpoint_frame(&frame, &witnesses)).unwrap();
    assert_eq!(decoded.step_index(), 1);
    assert_eq!(decoded.target_net_id(), observation.target.net_id);
    assert_eq!(decoded.anchor_net_id(), observation.anchor.net_id);
    assert_eq!(decoded.session_binding().session_id_bytes(), binding.session_id().as_bytes());
    assert_eq!(
        decoded.session_binding().temporal_incarnation_raw(),
        binding.temporal_incarnation_id()
    );
}

#[test]
fn private_detached_composition_rejects_mismatched_session() {
    let binding_a = QualifiedEvidenceSessionBinding::bind_live(
        mint_os_csprng_session_id().unwrap(),
        0x0102_0304_0506_0708_090a_0b0c_0d0e_0f10,
        0x1112_1314_1516_1718_191a_1b1c_1d1e_1f20,
        0x99,
    );
    let token_b = golden_observation();
    let session_frame = encode_frame(
        EvidenceFrameKindV1::EvidenceSessionBinding,
        &qualified_evidence_session_binding_payload_v1(&binding_a),
    );
    assert_eq!(
        encode_qualified_endpoint_token_v1::<String, 3>(
            &binding_a,
            &token_b,
            &session_frame,
            FRAME_PAYLOAD_LIMIT
        ),
        Err(EndpointSampleCodecV1Error::QualifiedSessionMismatch)
    );
}

#[test]
fn qualified_producer_rejects_inconsistent_observations_and_session_frames() {
    let binding = golden_binding();
    let session_frame = encode_frame(
        EvidenceFrameKindV1::EvidenceSessionBinding,
        &qualified_evidence_session_binding_payload_v1(&binding),
    );
    let mut zero_step = golden_observation();
    zero_step.step_index = 0;
    assert_eq!(
        encode_qualified_endpoint_token_v1::<String, 3>(&binding, &zero_step, &session_frame, FRAME_PAYLOAD_LIMIT),
        Err(EndpointSampleCodecV1Error::QualifiedObservationInvariant)
    );
    let mut same_subject = golden_observation();
    same_subject.target = same_subject.anchor;
    assert_eq!(
        encode_qualified_endpoint_token_v1::<String, 3>(&binding, &same_subject, &session_frame, FRAME_PAYLOAD_LIMIT),
        Err(EndpointSampleCodecV1Error::QualifiedObservationInvariant)
    );
    assert_eq!(
        encode_qualified_endpoint_token_v1::<String, 3>(
            &binding,
            &golden_observation(),
            &session_frame[..142],
            FRAME_PAYLOAD_LIMIT
        ),
        Err(EndpointSampleCodecV1Error::SessionBindingFrameLength { actual: 142 })
    );
    assert_eq!(
        encode_qualified_endpoint_token_v1::<String, 3>(&binding, &golden_observation(), &session_frame, 100),
        Err(EndpointSampleCodecV1Error::DimensionOutOfRange { dimension: 3 })
    );
}

#[test]
fn malformed_and_internally_inconsistent_payloads_fail_closed() {
    let frame = golden_frame();

    let zero_step = mutate_payload(&frame, |payload| {
        payload[STEP_INDEX_START..TARGET_NET_ID_START].fill(0);
    });
    assert_eq!(decode_endpoint(&zero_step), Err(EndpointSampleCodecV1Error::StepIndexZero));

    let same_subject = mutate_payload(&frame, |payload| {
        let target = payload[TARGET_NET_ID_START..ANCHOR_NET_ID_START].to_vec();
        payload[ANCHOR_NET_ID_START..MEMBERSHIP_START].copy_from_slice(&target);
    });
    assert!(matches!(
        decode_endpoint(&same_subject),
        Err(EndpointSampleCodecV1Error::SameTargetAnchorNetId { .. })
    ));

    let bad_center = mutate_payload(&frame, |payload| {
        let region_center_x = ARRAYS_START + REGION_CENTER_GROUP * 3 * 8;
        payload[region_center_x..region_center_x + 8]
            .copy_from_slice(&11.0_f64.to_bits().to_be_bytes());
    });
    assert_eq!(
        decode_endpoint(&bad_center),
        Err(EndpointSampleCodecV1Error::RegionCenterMismatch { axis: 0 })
    );

    let bad_offset = mutate_payload(&frame, |payload| {
        let offset_x = ARRAYS_START + OFFSET_FROM_CENTER_GROUP * 3 * 8;
        payload[offset_x..offset_x + 8].copy_from_slice(&0.5_f64.to_bits().to_be_bytes());
    });
    assert_eq!(
        decode_endpoint(&bad_offset),
        Err(EndpointSampleCodecV1Error::OffsetFromCenterMismatch { axis: 0 })
    );

    let bad_membership = mutate_payload(&frame, |payload| {
        payload[MEMBERSHIP_START] = 0;
    });
    assert!(matches!(
        decode_endpoint(&bad_membership),
        Err(EndpointSampleCodecV1Error::MembershipMismatch { .. })
    ));

    let negative_zero = mutate_payload(&frame, |payload| {
        payload[ARRAYS_START..ARRAYS_START + 8].copy_from_slice(&(-0.0_f64).to_bits().to_be_bytes());
    });
    assert_eq!(
        decode_endpoint(&negative_zero),
        Err(EndpointSampleCodecV1Error::NonCanonicalCenterOffsetZero { axis: 0 })
    );
}

#[test]
fn closed_box_boundary_is_inside() {
    let frame = mutate_payload(&golden_frame(), |payload| {
        let offset_x = ARRAYS_START + OFFSET_FROM_CENTER_GROUP * 3 * 8;
        payload[offset_x..offset_x + 8].copy_from_slice(&2.0_f64.to_bits().to_be_bytes());
        let target_x = ARRAYS_START + TARGET_TRANSLATION_GROUP * 3 * 8;
        payload[target_x..target_x + 8].copy_from_slice(&12.0_f64.to_bits().to_be_bytes());
    });
    assert_eq!(endpoint_membership(&frame), CanonicalEndpointMembershipV1::Inside);
}

#[test]
fn endpoint_decoder_reports_framing_and_grammar_errors() {
    let frame = golden_frame();
    let binding_kind = encode_frame(EvidenceFrameKindV1::EvidenceSessionBinding, &frame_payload(&frame));
    assert_eq!(
        decode_endpoint(&binding_kind),
        Err(EndpointSampleCodecV1Error::WrongFrameKind {
            actual: EvidenceFrameKindV1::EvidenceSessionBinding
        })
    );
    let short = encode_frame(EvidenceFrameKindV1::EndpointSample, &[0_u8; 10]);
    assert_eq!(decode_endpoint(&short), Err(EndpointSampleCodecV1Error::PayloadTooShort { actual: 10 }));

    let version = mutate_payload(&frame, |payload| payload[0..4].copy_from_slice(&2_u32.to_be_bytes()));
    assert_eq!(decode_endpoint(&version), Err(EndpointSampleCodecV1Error::UnsupportedPayloadVersion { version: 2 }));

    let zero_dimension = mutate_payload(&frame, |payload| payload[4..6].fill(0));
    assert_eq!(decode_endpoint(&zero_dimension), Err(EndpointSampleCodecV1Error::DimensionZero));

    let wrong_length = mutate_payload(&frame, |payload| payload[4..6].copy_from_slice(&4_u16.to_be_bytes()));
    assert_eq!(
        decode_endpoint(&wrong_length),
        Err(EndpointSampleCodecV1Error::WrongPayloadLength { actual: 320, expected: 368 })
    );

    let session_len = mutate_payload(&frame, |payload| payload[6..8].copy_from_slice(&142_u16.to_be_bytes()));
    assert_eq!(
        decode_endpoint(&session_len),
        Err(EndpointSampleCodecV1Error::SessionBindingFrameLength { actual: 142 })
    );

    let nested = mutate_nested_session(&frame, |payload| payload[36..52].fill(0));
    assert_eq!(
        decode_endpoint(&nested),
        Err(EndpointSampleCodecV1Error::SessionBinding(
            EvidenceSessionBindingCodecV1Error::ZeroPhysicalAuthorityId
        ))
    );

    let broken_nested = mutate_payload(&frame, |payload| payload[8] = b'X');
    assert_eq!(
        decode_endpoint(&broken_nested),
        Err(EndpointSampleCodecV1Error::SessionBinding(EvidenceSessionBindingCodecV1Error::Frame(
            "bad magic".to_string()
        )))
    );

    let membership = mutate_payload(&frame, |payload| payload[MEMBERSHIP_START] = 7);
    assert_eq!(decode_endpoint(&membership), Err(EndpointSampleCodecV1Error::InvalidMembership { code: 7 }));
}

#[test]
fn endpoint_decoder_rejects_non_finite_and_non_positive_values() {
    let frame = golden_frame();
    let nan = f64::NAN.to_bits().to_be_bytes();
    let at = |group: usize, axis: usize| ARRAYS_START + (group * 3 + axis) * 8;

    let center = mutate_payload(&frame, |payload| payload[at(0, 1)..at(0, 1) + 8].copy_from_slice(&nan));
    assert_eq!(decode_endpoint(&center), Err(EndpointSampleCodecV1Error::NonFiniteCenterOffset { axis: 1 }));

    let half = mutate_payload(&frame, |payload| payload[at(1, 2)..at(1, 2) + 8].copy_from_slice(&nan));
    assert_eq!(decode_endpoint(&half), Err(EndpointSampleCodecV1Error::NonFiniteHalfExtent { axis: 2 }));

    let negative_half = mutate_payload(&frame, |payload| {
        payload[at(1, 0)..at(1, 0) + 8].copy_from_slice(&(-2.0_f64).to_bits().to_be_bytes())
    });
    assert_eq!(decode_endpoint(&negative_half), Err(EndpointSampleCodecV1Error::NonPositiveHalfExtent { axis: 0 }));

    let target = mutate_payload(&frame, |payload| payload[at(2, 0)..at(2, 0) + 8].copy_from_slice(&nan));
    assert_eq!(decode_endpoint(&target), Err(EndpointSampleCodecV1Error::NonFiniteTargetTranslation { axis: 0 }));

    let anchor = mutate_payload(&frame, |payload| payload[at(3, 0)..at(3, 0) + 8].copy_from_slice(&nan));
    assert_eq!(decode_endpoint(&anchor), Err(EndpointSampleCodecV1Error::NonFiniteAnchorTranslation { axis: 0 }));

    let region = mutate_payload(&frame, |payload| payload[at(4, 0)..at(4, 0) + 8].copy_from_slice(&nan));
    assert_eq!(decode_endpoint(&region), Err(EndpointSampleCodecV1Error::NonFiniteRegionCenter { axis: 0 }));

    let offset = mutate_payload(&frame, |payload| payload[at(5, 0)..at(5, 0) + 8].copy_from_slice(&nan));
    assert_eq!(decode_endpoint(&offset), Err(EndpointSampleCodecV1Error::NonFiniteOffsetFromCenter { axis: 0 }));
}

#[test]
fn endpoint_payload_length_grows_by_forty_eight_bytes_per_axis() {
    assert_eq!(endpoint_payload_len_v1::<String>(1, FRAME_PAYLOAD_LIMIT), Ok(224));
    assert_eq!(endpoint_payload_len_v1::<String>(3, FRAME_PAYLOAD_LIMIT), Ok(320));
    assert_eq!(endpoint_payload_len_v1::<String>(0, FRAME_PAYLOAD_LIMIT), Err(EndpointSampleCodecV1Error::DimensionZero));
    assert_eq!(
        endpoint_payload_len_v1::<String>(70_000, FRAME_PAYLOAD_LIMIT),
        Err(EndpointSampleCodecV1Error::DimensionOutOfRange { dimension: 70_000 })
    );
}

#[test]
fn membership_codes_round_trip() {
    assert_eq!(CanonicalEndpointMembershipV1::Outside.code(), 0);
    assert_eq!(CanonicalEndpointMembershipV1::Inside.code(), 1);
    assert_eq!(CanonicalEndpointMembershipV1::from_code(1), Some(CanonicalEndpointMembershipV1::Inside));
    assert_eq!(CanonicalEndpointMembershipV1::from_code(0), Some(CanonicalEndpointMembershipV1::Outside));
    assert_eq!(CanonicalEndpointMembershipV1::from_code(2), None);
}

// ---------------------------------------------------------------------------
// Endpoint semantic claim identity.
// ---------------------------------------------------------------------------

#[test]
fn golden_endpoint_derives_exact_language_neutral_position_and_value() {
    let claim = endpoint_claim(&golden_frame()).unwrap();
    assert_eq!(claim.position().len(), 205);
    assert_eq!(claim.value().len(), 151);
    assert_eq!(to_hex(claim.position().as_bytes()), GOLDEN_POSITION_HEX);
    assert_eq!(to_hex(claim.value().as_bytes()), GOLDEN_VALUE_HEX);
}

#[test]
fn endpoint_claim_layout_opens_with_magic_domain_and_dimension() {
    let frame = golden_frame();
    let claim = endpoint_claim(&frame).unwrap();
    let position = claim.position().as_bytes();
    let mut opening = ENDPOINT_SAMPLE_CLAIM_POSITION_V1_MAGIC.to_vec();
    opening.extend_from_slice(&ENDPOINT_SAMPLE_CLAIM_V1_DOMAIN);
    opening.extend_from_slice(&1u32.to_be_bytes());
    opening.extend_from_slice(&3u16.to_be_bytes());
    assert_eq!(&position[..opening.len()], opening.as_slice());
    assert!(!claim.position().is_empty());

    let value = claim.value().as_bytes();
    let mut value_opening = ENDPOINT_SAMPLE_CLAIM_VALUE_V1_MAGIC.to_vec();
    value_opening.extend_from_slice(&ENDPOINT_SAMPLE_CLAIM_V1_DOMAIN);
    assert_eq!(&value[..value_opening.len()], value_opening.as_slice());
    assert_eq!(value[54], 1);

    let outside = mutate_payload(&frame, |payload| {
        payload[MEMBERSHIP_OFFSET] = 0;
        payload[TARGET_TRANSLATION_X..TARGET_TRANSLATION_X + 8]
            .copy_from_slice(&13.0_f64.to_bits().to_be_bytes());
        payload[OFFSET_X..OFFSET_X + 8].copy_from_slice(&3.0_f64.to_bits().to_be_bytes());
    });
    let outside_claim = endpoint_claim(&outside).unwrap();
    assert_eq!(outside_claim.value().as_bytes()[54], 0);
    assert_eq!(outside_claim.position().len(), 157 + 16 * 3);
    assert_eq!(outside_claim.value().len(), 55 + 32 * 3);
}

#[test]
fn repeated_transport_of_same_canonical_claim_is_duplicate() {
    let frame = golden_frame();
    assert_eq!(classify_endpoints(&frame, &frame), EndpointSampleClaimComparisonV1::Duplicate);

    let first = endpoint_claim(&frame).unwrap();
    let second = endpoint_claim(&from_hex(GOLDEN_ENDPOINT_FRAME_HEX)).unwrap();
    assert_eq!(first.position(), second.position());
    assert_eq!(first.value(), second.value());
}

#[test]
fn same_position_with_different_admitted_value_is_contradiction() {
    let frame = golden_frame();
    let outside = mutate_payload(&frame, |payload| {
        payload[MEMBERSHIP_OFFSET] = 0;
        payload[TARGET_TRANSLATION_X..TARGET_TRANSLATION_X + 8]
            .copy_from_slice(&13.0_f64.to_bits().to_be_bytes());
        payload[OFFSET_X..OFFSET_X + 8].copy_from_slice(&3.0_f64.to_bits().to_be_bytes());
    });

    let first = endpoint_claim(&frame).unwrap();
    let second = endpoint_claim(&outside).unwrap();
    assert_eq!(first.position(), second.position());
    assert_ne!(first.value(), second.value());
    assert_eq!(
        compare_endpoint_sample_claims_v1(&first, &second),
        EndpointSampleClaimComparisonV1::Contradiction
    );
}

#[test]
fn adjacent_step_is_a_distinct_position() {
    let frame = golden_frame();
    let next = endpoint_with_step(&frame, 2);
    assert_eq!(classify_endpoints(&frame, &next), EndpointSampleClaimComparisonV1::DistinctPosition);
}

#[test]
fn different_persistent_session_is_a_distinct_position() {
    let frame = golden_frame();
    let other = mutate_nested_session(&frame, |payload| {
        payload[4] = 0x80;
    });
    assert_eq!(classify_endpoints(&frame, &other), EndpointSampleClaimComparisonV1::DistinctPosition);
}

#[test]
fn different_temporal_incarnation_is_a_distinct_position() {
    let frame = golden_frame();
    let other = mutate_nested_session(&frame, |payload| {
        payload[68..76].copy_from_slice(&0x3132_3334_3536_3738_u64.to_be_bytes());
    });
    assert_eq!(classify_endpoints(&frame, &other), EndpointSampleClaimComparisonV1::DistinctPosition);
}

#[test]
fn target_anchor_and_region_changes_are_distinct_positions() {
    let frame = golden_frame();

    let target = mutate_payload(&frame, |payload| {
        payload[159..167].copy_from_slice(&0x0203_0405_0607_0809_u64.to_be_bytes());
    });
    assert_eq!(classify_endpoints(&frame, &target), EndpointSampleClaimComparisonV1::DistinctPosition);

    let anchor = mutate_payload(&frame, |payload| {
        payload[167..175].copy_from_slice(&0x2122_2324_2526_2728_u64.to_be_bytes());
    });
    assert_eq!(classify_endpoints(&frame, &anchor), EndpointSampleClaimComparisonV1::DistinctPosition);

    let center_offset = mutate_payload(&frame, |payload| {
        payload[176..184].copy_from_slice(&1.0_f64.to_bits().to_be_bytes());
        payload[REGION_CENTER_X..REGION_CENTER_X + 8].copy_from_slice(&11.0_f64.to_bits().to_be_bytes());
        payload[OFFSET_X..OFFSET_X + 8].copy_from_slice(&0.0_f64.to_bits().to_be_bytes());
    });
    assert_eq!(
        classify_endpoints(&frame, &center_offset),
        EndpointSampleClaimComparisonV1::DistinctPosition
    );

    let half_extent = mutate_payload(&frame, |payload| {
        payload[200..208].copy_from_slice(&3.0_f64.to_bits().to_be_bytes());
    });
    assert_eq!(
        classify_endpoints(&frame, &half_extent),
        EndpointSampleClaimComparisonV1::DistinctPosition
    );
}

#[test]
fn malformed_endpoint_bytes_reject_before_claim_derivation() {
    let bad = mutate_payload(&golden_frame(), |payload| {
        payload[MEMBERSHIP_OFFSET] = 9;
    });
    assert!(matches!(
        endpoint_claim(&bad),
        Err(EndpointSampleClaimIdentityV1Error::EndpointSample(
            EndpointSampleCodecV1Error::InvalidMembership { code: 9 }
        ))
    ));
}

#[test]
fn claim_comparison_is_symmetric_on_concrete_claims() {
    let frame = golden_frame();
    let outside = mutate_payload(&frame, |payload| {
        payload[MEMBERSHIP_OFFSET] = 0;
        payload[TARGET_TRANSLATION_X..TARGET_TRANSLATION_X + 8]
            .copy_from_slice(&13.0_f64.to_bits().to_be_bytes());
        payload[OFFSET_X..OFFSET_X + 8].copy_from_slice(&3.0_f64.to_bits().to_be_bytes());
    });
    let first = endpoint_claim(&frame).unwrap();
    let second = endpoint_claim(&outside).unwrap();
    assert_eq!(
        compare_endpoint_sample_claims_v1(&first, &second),
        compare_endpoint_sample_claims_v1(&second, &first)
    );
    assert_eq!(
        compare_endpoint_sample_claims_v1(&first, &first),
        EndpointSampleClaimComparisonV1::Duplicate
    );
}

// ---------------------------------------------------------------------------
// Consecutive presence: codec and ordered claim identity.
// ---------------------------------------------------------------------------

#[test]
fn golden_relation_derives_exact_ordered_semantic_transcripts() {
    let previous = golden_frame();
    let current = endpoint_with_step(&previous, 2);
    let claim = relation_claim(&relation(&previous, &current));
    assert_eq!(claim.position().len(), 478);
    assert_eq!(claim.value().len(), 367);
    assert_eq!(to_hex(claim.position().as_bytes()), GOLDEN_DERIVED_POSITION_HEX);
    assert_eq!(to_hex(claim.value().as_bytes()), GOLDEN_DERIVED_VALUE_HEX);
}

fn classify_relations(first: &[u8], second: &[u8]) -> ConsecutivePresenceClaimComparisonV1 {
    let (first_previous, first_current) = relation_parts(first);
    let (second_previous, second_current) = relation_parts(second);
    let w1 = float_witnesses(&first_previous);
    let w2 = float_witnesses(&first_current);
    let w3 = float_witnesses(&second_previous);
    let w4 = float_witnesses(&second_current);
    classify_consecutive_presence_frames_v1(
        decode_frame(first).unwrap(),
        endpoint_frame(&first_previous, &w1),
        endpoint_frame(&first_current, &w2),
        decode_frame(second).unwrap(),
        endpoint_frame(&second_previous, &w3),
        endpoint_frame(&second_current, &w4),
    )
    .unwrap()
}

#[test]
fn repeated_derivation_is_duplicate() {
    let previous = golden_frame();
    let current = endpoint_with_step(&previous, 2);
    let frame = relation(&previous, &current);
    assert_eq!(classify_relations(&frame, &frame), ConsecutivePresenceClaimComparisonV1::Duplicate);
}

#[test]
fn same_ordered_positions_with_different_admitted_values_are_contradiction() {
    let previous = golden_frame();
    let current = endpoint_with_step(&previous, 2);
    let altered_current = mutate_payload(&current, |payload| {
        payload[224..232].copy_from_slice(&10.5_f64.to_bits().to_be_bytes());
        payload[296..304].copy_from_slice(&0.5_f64.to_bits().to_be_bytes());
    });
    let first_claim = relation_claim(&relation(&previous, &current));
    let second_claim = relation_claim(&relation(&previous, &altered_current));
    assert_eq!(first_claim.position(), second_claim.position());
    assert_ne!(first_claim.value(), second_claim.value());
    assert_eq!(
        compare_consecutive_presence_claims_v1(&first_claim, &second_claim),
        ConsecutivePresenceClaimComparisonV1::Contradiction
    );
}

#[test]
fn different_adjacent_relation_position_is_distinct() {
    let previous = golden_frame();
    let step2 = endpoint_with_step(&previous, 2);
    let step3 = endpoint_with_step(&previous, 3);
    let first = relation(&previous, &step2);
    let second = relation(&step2, &step3);
    assert_eq!(
        classify_relations(&first, &second),
        ConsecutivePresenceClaimComparisonV1::DistinctPosition
    );
}

#[test]
fn adjacent_issuer_qualified_samples_produce_ordered_persistent_relation() {
    let previous = golden_frame();
    let current = endpoint_with_step(&previous, 2);
    let frame = relation(&previous, &current);
    let (previous_step, current_step, previous_frame, current_frame) = decode_relation(&frame).unwrap();
    assert_eq!(previous_step, 1);
    assert_eq!(current_step, 2);
    assert_eq!(previous_frame, previous);
    assert_eq!(current_frame, current);
    assert_eq!(frame.len(), 819, "D=3 relation over two 374-byte endpoint frames has frozen length");
}

#[test]
fn decoder_preserves_order_and_rejects_reversal() {
    let previous = golden_frame();
    let current = endpoint_with_step(&previous, 2);
    let reversed = relation(&current, &previous);
    assert!(matches!(
        decode_relation(&reversed),
        Err(ConsecutivePresenceCodecV1Error::ReversedStep { .. })
    ));
}

#[test]
fn decoder_rejects_different_persistent_session_even_with_canonical_endpoints() {
    let previous = golden_frame();
    let current = mutate_nested_session(&endpoint_with_step(&previous, 2), |payload| {
        payload[4] = 0x80;
    });
    assert_eq!(
        decode_relation(&relation(&previous, &current)).err(),
        Some(ConsecutivePresenceCodecV1Error::PersistentSessionMismatch)
    );
}

#[test]
fn relation_decoder_rejects_duplicate_gap_and_outside_samples() {
    let previous = golden_frame();
    assert_eq!(
        decode_relation(&relation(&previous, &previous)).err(),
        Some(ConsecutivePresenceCodecV1Error::DuplicateStep { step_index: 1 })
    );
    let third = endpoint_with_step(&previous, 3);
    assert_eq!(
        decode_relation(&relation(&previous, &third)).err(),
        Some(ConsecutivePresenceCodecV1Error::StepGap { previous_step: 1, current_step: 3 })
    );
    let outside = mutate_payload(&endpoint_with_step(&previous, 2), |payload| {
        payload[MEMBERSHIP_OFFSET] = 0;
        payload[TARGET_TRANSLATION_X..TARGET_TRANSLATION_X + 8]
            .copy_from_slice(&13.0_f64.to_bits().to_be_bytes());
        payload[OFFSET_X..OFFSET_X + 8].copy_from_slice(&3.0_f64.to_bits().to_be_bytes());
    });
    assert_eq!(
        decode_relation(&relation(&previous, &outside)).err(),
        Some(ConsecutivePresenceCodecV1Error::CurrentOutside)
    );
    let other_target = mutate_payload(&endpoint_with_step(&previous, 2), |payload| {
        payload[159..167].copy_from_slice(&5_u64.to_be_bytes());
    });
    assert_eq!(
        decode_relation(&relation(&previous, &other_target)).err(),
        Some(ConsecutivePresenceCodecV1Error::TargetMismatch { previous: 0x0102_0304_0506_0708, current: 5 })
    );
    let other_half_extent = mutate_payload(&endpoint_with_step(&previous, 2), |payload| {
        payload[200..208].copy_from_slice(&3.0_f64.to_bits().to_be_bytes());
    });
    assert_eq!(
        decode_relation(&relation(&previous, &other_half_extent)).err(),
        Some(ConsecutivePresenceCodecV1Error::HalfExtentMismatch { axis: 0 })
    );
}

#[test]
fn relation_decoder_rejects_wrong_kind_and_malformed_layout() {
    let previous = golden_frame();
    let current = endpoint_with_step(&previous, 2);
    let good = relation(&previous, &current);
    let wrong_kind = encode_frame(EvidenceFrameKindV1::EndpointSample, &frame_payload(&good));
    let w1 = float_witnesses(&previous);
    let w2 = float_witnesses(&current);
    assert_eq!(
        decode_consecutive_sampled_presence_v1(
            decode_frame(&wrong_kind).unwrap(),
            endpoint_frame(&previous, &w1),
            endpoint_frame(&current, &w2),
        )
        .err(),
        Some(ConsecutivePresenceCodecV1Error::WrongFrameKind { actual: EvidenceFrameKindV1::EndpointSample })
    );
    let mut trailing_payload = frame_payload(&good);
    trailing_payload.push(0);
    let trailing = encode_frame(EvidenceFrameKindV1::ConsecutiveSampledPresence, &trailing_payload);
    assert_eq!(
        decode_consecutive_sampled_presence_v1(
            decode_frame(&trailing).unwrap(),
            endpoint_frame(&previous, &w1),
            endpoint_frame(&current, &w2),
        )
        .err(),
        Some(ConsecutivePresenceCodecV1Error::TrailingPayloadBytes { trailing: 1 })
    );
}

// ---------------------------------------------------------------------------
// Semantic commitment preimages.
// ---------------------------------------------------------------------------

#[test]
fn golden_typed_claims_match_exact_language_neutral_preimages() {
    let endpoint_frame_bytes = golden_frame();
    let endpoint_claim_value = endpoint_claim(&endpoint_frame_bytes).unwrap();
    let endpoint = endpoint_sample_commitment_preimages_v1(&endpoint_claim_value).unwrap();
    assert_eq!(endpoint.profile(), SemanticClaimProfileV1::EndpointSample);
    assert_eq!(endpoint.position_preimage().len(), 285);
    assert_eq!(endpoint.full_claim_preimage().len(), 446);

    let current = endpoint_with_step(&endpoint_frame_bytes, 2);
    let consecutive_claim = relation_claim(&relation(&endpoint_frame_bytes, &current));
    let consecutive = consecutive_presence_commitment_preimages_v1(&consecutive_claim).unwrap();
    assert_eq!(consecutive.profile(), SemanticClaimProfileV1::ConsecutivePresence);
    assert_eq!(consecutive.position_preimage().len(), 563);
    assert_eq!(consecutive.full_claim_preimage().len(), 940);
}

#[test]
fn same_position_different_value_changes_only_full_claim_preimage() {
    let endpoint_frame_bytes = golden_frame();
    let first = endpoint_claim(&endpoint_frame_bytes).unwrap();
    let altered_frame = mutate_payload(&endpoint_frame_bytes, |payload| {
        payload[224..232].copy_from_slice(&10.5_f64.to_bits().to_be_bytes());
        payload[296..304].copy_from_slice(&0.5_f64.to_bits().to_be_bytes());
    });
    let second = endpoint_claim(&altered_frame).unwrap();
    assert_eq!(first.position(), second.position());
    assert_ne!(first.value(), second.value());

    let first_preimages = endpoint_sample_commitment_preimages_v1(&first).unwrap();
    let second_preimages = endpoint_sample_commitment_preimages_v1(&second).unwrap();
    assert_eq!(first_preimages.position_preimage(), second_preimages.position_preimage());
    assert_ne!(first_preimages.full_claim_preimage(), second_preimages.full_claim_preimage());
}

#[test]
fn profile_domain_separates_identical_private_transcripts() {
    let position = b"same-position";
    let value = b"same-value";
    let endpoint = build_preimages_v1(SemanticClaimProfileV1::EndpointSample, position, value).unwrap();
    let consecutive =
        build_preimages_v1(SemanticClaimProfileV1::ConsecutivePresence, position, value).unwrap();
    assert_ne!(endpoint.position_preimage(), consecutive.position_preimage());
    assert_ne!(endpoint.full_claim_preimage(), consecutive.full_claim_preimage());
}

#[test]
fn position_and_full_claim_domains_are_distinct() {
    let claim = endpoint_claim(&golden_frame()).unwrap();
    let preimages = endpoint_sample_commitment_preimages_v1(&claim).unwrap();
    assert_ne!(preimages.position_preimage(), preimages.full_claim_preimage());
    assert!(preimages.position_preimage().starts_with(&SEMANTIC_COMMITMENT_PREIMAGE_V1_MAGIC));
    assert!(preimages.full_claim_preimage().starts_with(&SEMANTIC_COMMITMENT_PREIMAGE_V1_MAGIC));
}

#[test]
fn profile_domains_name_their_claim_kind() {
    assert_eq!(SemanticClaimProfileV1::EndpointSample.domain_bytes(), b"endpoint-sample-v1");
    assert_eq!(SemanticClaimProfileV1::ConsecutivePresence.domain_bytes(), b"consecutive-presence-v1");
}

// ---------------------------------------------------------------------------
// Issuer-qualified persistent endpoint samples.
// ---------------------------------------------------------------------------

#[test]
fn successful_wrapper_binds_exact_live_token_and_canonical_frame() {
    let binding = golden_binding();
    let observation = golden_observation();
    assert_eq!(exact_match(&binding, &observation, &golden_frame()), Ok(()));
}

#[test]
fn exact_match_rejects_a_different_but_canonical_target_identity() {
    let binding = golden_binding();
    let observation = golden_observation();
    let altered = mutate_payload(&golden_frame(), |payload| {
        payload[159..167].copy_from_slice(&9999_u64.to_be_bytes());
    });
    assert_eq!(
        exact_match(&binding, &observation, &altered),
        Err(QualifiedPersistentEndpointSampleV1Error::TargetMismatch {
            live: observation.target.net_id,
            canonical: 9999,
        })
    );
}

#[test]
fn exact_match_rejects_a_different_but_canonical_session_id() {
    let binding = golden_binding();
    let observation = golden_observation();
    let altered = mutate_nested_session(&golden_frame(), |payload| {
        payload[4] ^= 0x80;
    });
    assert_eq!(
        exact_match(&binding, &observation, &altered),
        Err(QualifiedPersistentEndpointSampleV1Error::SessionMismatch)
    );
}

#[test]
fn exact_match_names_the_first_disagreeing_field() {
    let binding = golden_binding();
    let frame = golden_frame();
    let mut step = golden_observation();
    step.step_index = 2;
    assert_eq!(
        exact_match(&binding, &step, &frame),
        Err(QualifiedPersistentEndpointSampleV1Error::StepMismatch { live: 2, canonical: 1 })
    );
    let mut membership = golden_observation();
    membership.membership = CanonicalEndpointMembershipV1::Outside;
    assert_eq!(
        exact_match(&binding, &membership, &frame),
        Err(QualifiedPersistentEndpointSampleV1Error::MembershipMismatch)
    );
    let mut half = golden_observation();
    half.half_extent_bits[2] = 5.0_f64.to_bits();
    assert_eq!(
        exact_match(&binding, &half, &frame),
        Err(QualifiedPersistentEndpointSampleV1Error::HalfExtentMismatch { axis: 2 })
    );
    let mut offset = golden_observation();
    offset.offset_from_center_bits[1] = 5.0_f64.to_bits();
    assert_eq!(
        exact_match(&binding, &offset, &frame),
        Err(QualifiedPersistentEndpointSampleV1Error::OffsetFromCenterMismatch { axis: 1 })
    );
    let mut stamp = golden_observation();
    stamp.stamp_temporal_incarnation_id = 5;
    assert_eq!(
        exact_match(&binding, &stamp, &frame),
        Err(QualifiedPersistentEndpointSampleV1Error::SessionMismatch)
    );
}
