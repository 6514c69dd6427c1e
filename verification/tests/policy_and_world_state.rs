use symtropy_evidence::cinematic_phase::CinematicPhase;
use symtropy_evidence::data_view::DataView;
use symtropy_evidence::demo_phase::DemoPhase;
use symtropy_evidence::dimension_mode::DimensionMode;
use symtropy_evidence::epistemics::{EpistemicTag, PlayerEpistemicState};
use symtropy_evidence::fep_perception::{
    attenuated_signal_bps, strongest_local_sample_bps, strongest_local_target_index,
    LocalTargetCandidate, PerceivedScalar, PerceivedWorldFrame, FULL_SCALE_BPS,
};
use symtropy_evidence::governance_log::GovernanceLog;
use symtropy_evidence::governance_vote::GovernanceVote;
use symtropy_evidence::harmony::Harmony;
use symtropy_evidence::issuer_policy::{
    DecodedIssuerAuthorizationPolicyV1, IssuerAttestationSuiteV1, IssuerAuthorizationEntryV1,
    IssuerClaimProfileV1, IssuerCredentialStatusV1, IssuerCryptoPolicyProfileV1,
    IssuerSessionProfileV1,
};
use symtropy_evidence::issuer_policy_membership::{
    evaluate_issuer_policy_scope_v1, IssuerAuthorizationQueryV1, IssuerPolicyScopeDenyReasonV1,
};
use symtropy_evidence::issuer_policy_trust::{
    begin_local_issuer_policy_trust_bootstrap_v1, LocalIssuerPolicyTrustBootstrapError,
    LocallyTrustedIssuerAuthorizationPolicyV1, LOCAL_ISSUER_POLICY_TRUST_BOOTSTRAP_PROFILE_V1,
};
use symtropy_evidence::scale::WorldScale;
use symtropy_evidence::tend_balance::{pay_for_service, TendBalance};

// ---------------------------------------------------------------------------
// Issuer policy snapshots. The canonical policy byte codec belongs to the
// physics crate; here a snapshot's canonical bytes are stood in for by a
// byte string that names its revision, and the decoder's result is given.
// ---------------------------------------------------------------------------

fn snapshot_bytes(revision: u64) -> Vec<u8> {
    let mut bytes = b"issuer-policy-v1".to_vec();
    bytes.extend_from_slice(&revision.to_be_bytes());
    bytes
}

fn entry(
    id: u8,
    status: IssuerCredentialStatusV1,
    authorities: Vec<u128>,
    claims: Vec<IssuerClaimProfileV1>,
) -> IssuerAuthorizationEntryV1 {
    IssuerAuthorizationEntryV1 {
        credential_id: [id; 32],
        status,
        physical_authority_ids: authorities,
        claim_profiles: claims,
        session_profiles: vec![IssuerSessionProfileV1::OsCsprng],
        attestation_suites: vec![IssuerAttestationSuiteV1::HybridEd25519MlDsa65],
        crypto_policy_profiles: vec![IssuerCryptoPolicyProfileV1::HybridPqcAuth],
    }
}

fn policy_entries() -> Vec<IssuerAuthorizationEntryV1> {
    vec![
        entry(
            0x11,
            IssuerCredentialStatusV1::Active,
            vec![3, 9],
            vec![IssuerClaimProfileV1::EndpointSample, IssuerClaimProfileV1::ConsecutivePresence],
        ),
        entry(0x22, IssuerCredentialStatusV1::Disabled, vec![3], vec![IssuerClaimProfileV1::EndpointSample]),
        entry(
            0x33,
            IssuerCredentialStatusV1::RevokedCompromised,
            vec![3],
            vec![IssuerClaimProfileV1::EndpointSample],
        ),
    ]
}

fn policy(revision: u64) -> DecodedIssuerAuthorizationPolicyV1 {
    DecodedIssuerAuthorizationPolicyV1::new(revision, policy_entries()).expect("distinct credentials")
}

fn trust(revision: u64) -> LocallyTrustedIssuerAuthorizationPolicyV1 {
    let bytes = snapshot_bytes(revision);
    begin_local_issuer_policy_trust_bootstrap_v1()
        .trust_exact_policy_bytes::<String>(&bytes, Ok((revision, policy_entries(), snapshot_bytes(revision))))
        .expect("explicit local trust bootstrap")
}

fn trusted_endpoint_only_policy() -> LocallyTrustedIssuerAuthorizationPolicyV1 {
    let endpoint_only =
        vec![entry(0x11, IssuerCredentialStatusV1::Active, vec![3], vec![IssuerClaimProfileV1::EndpointSample])];
    begin_local_issuer_policy_trust_bootstrap_v1()
        .trust_exact_policy_bytes::<String>(&snapshot_bytes(7), Ok((7, endpoint_only, snapshot_bytes(7))))
        .expect("explicit local trust bootstrap")
}

fn allowed_query() -> IssuerAuthorizationQueryV1 {
    IssuerAuthorizationQueryV1 {
        credential_id: [0x11; 32],
        physical_authority_id: 3,
        claim_profile: IssuerClaimProfileV1::EndpointSample,
        session_profile: IssuerSessionProfileV1::OsCsprng,
        attestation_suite: IssuerAttestationSuiteV1::HybridEd25519MlDsa65,
        crypto_policy_profile: IssuerCryptoPolicyProfileV1::HybridPqcAuth,
    }
}

#[test]
fn explicit_bootstrap_retains_exact_canonical_snapshot() {
    let bytes = snapshot_bytes(7);
    let trusted = trust(7);
    assert_eq!(trusted.canonical_policy_bytes(), bytes.as_slice());
    assert_eq!(trusted.policy().policy_revision(), 7);
    assert_eq!(trusted.bootstrap_profile(), LOCAL_ISSUER_POLICY_TRUST_BOOTSTRAP_PROFILE_V1);
}

#[test]
fn source_buffer_mutation_after_bootstrap_cannot_mutate_trusted_snapshot() {
    let mut bytes = snapshot_bytes(7);
    let original = bytes.clone();
    let trusted = begin_local_issuer_policy_trust_bootstrap_v1()
        .trust_exact_policy_bytes::<String>(&bytes, Ok((7, policy_entries(), original.clone())))
        .expect("bootstrap should succeed");
    bytes[0] ^= 0xff;
    assert_eq!(trusted.canonical_policy_bytes(), original.as_slice());
}

#[test]
fn malformed_or_noncanonical_candidate_never_produces_trusted_type() {
    let mut bytes = snapshot_bytes(7);
    bytes.push(0);
    assert_eq!(
        begin_local_issuer_policy_trust_bootstrap_v1()
            .trust_exact_policy_bytes::<String>(&bytes, Ok((7, policy_entries(), snapshot_bytes(7))))
            .map(|trusted| trusted.policy().policy_revision()),
        Err(LocalIssuerPolicyTrustBootstrapError::CanonicalRoundTripMismatch)
    );
    assert_eq!(
        begin_local_issuer_policy_trust_bootstrap_v1()
            .trust_exact_policy_bytes::<String>(&bytes, Err("trailing bytes".to_string()))
            .map(|trusted| trusted.policy().policy_revision()),
        Err(LocalIssuerPolicyTrustBootstrapError::Policy("trailing bytes".to_string()))
    );
}

#[test]
fn same_exact_snapshot_bootstrapped_twice_preserves_same_policy_semantics() {
    let a = trust(7);
    let b = trust(7);
    assert_eq!(a.canonical_policy_bytes(), b.canonical_policy_bytes());
    assert_eq!(a.policy(), b.policy());
}

#[test]
fn revision_change_is_a_different_snapshot_without_implying_time_order() {
    let a = trust(7);
    let b = trust(8);
    assert_ne!(a.canonical_policy_bytes(), b.canonical_policy_bytes());
    assert_eq!(a.policy().policy_revision(), 7);
    assert_eq!(b.policy().policy_revision(), 8);
}

#[test]
fn policies_naming_one_credential_twice_are_not_admitted() {
    let duplicate = DecodedIssuerAuthorizationPolicyV1::new(
        1,
        vec![
            entry(0x11, IssuerCredentialStatusV1::Active, vec![1], vec![IssuerClaimProfileV1::EndpointSample]),
            entry(0x11, IssuerCredentialStatusV1::Disabled, vec![1], vec![IssuerClaimProfileV1::EndpointSample]),
        ],
    );
    assert!(duplicate.is_none());
    assert_eq!(policy(4).entries().len(), 3);
}

#[test]
fn bootstrap_refuses_a_policy_naming_one_credential_twice() {
    let duplicate = vec![
        entry(0x11, IssuerCredentialStatusV1::Active, vec![1], vec![IssuerClaimProfileV1::EndpointSample]),
        entry(0x11, IssuerCredentialStatusV1::Disabled, vec![1], vec![IssuerClaimProfileV1::EndpointSample]),
    ];
    assert_eq!(
        begin_local_issuer_policy_trust_bootstrap_v1()
            .trust_exact_policy_bytes::<String>(&snapshot_bytes(1), Ok((1, duplicate, snapshot_bytes(1))))
            .map(|trusted| trusted.policy().policy_revision()),
        Err(LocalIssuerPolicyTrustBootstrapError::CanonicalRoundTripMismatch)
    );
}

#[test]
fn exact_active_query_matches_and_binds_snapshot() {
    let trusted = trust(7);
    let query = allowed_query();
    let matched = evaluate_issuer_policy_scope_v1(&trusted, &query).expect("scope match");
    assert_eq!(matched.query(), query);
    assert_eq!(matched.policy_revision(), 7);
    assert_eq!(matched.canonical_policy_bytes(), trusted.canonical_policy_bytes());
    assert_eq!(matched.trusted_policy().bootstrap_profile(), LOCAL_ISSUER_POLICY_TRUST_BOOTSTRAP_PROFILE_V1);
}

#[test]
fn either_exact_authority_member_can_match() {
    let trusted = trust(7);
    let mut query = allowed_query();
    query.physical_authority_id = 9;
    assert!(evaluate_issuer_policy_scope_v1(&trusted, &query).is_ok());
}

#[test]
fn unknown_disabled_and_revoked_credentials_are_distinct_denials() {
    let trusted = trust(7);
    let mut query = allowed_query();

    query.credential_id = [0x44; 32];
    assert_eq!(
        evaluate_issuer_policy_scope_v1(&trusted, &query).unwrap_err(),
        IssuerPolicyScopeDenyReasonV1::UnknownCredential
    );

    query.credential_id = [0x22; 32];
    assert_eq!(
        evaluate_issuer_policy_scope_v1(&trusted, &query).unwrap_err(),
        IssuerPolicyScopeDenyReasonV1::CredentialDisabled
    );

    query.credential_id = [0x33; 32];
    assert_eq!(
        evaluate_issuer_policy_scope_v1(&trusted, &query).unwrap_err(),
        IssuerPolicyScopeDenyReasonV1::CredentialRevokedCompromised
    );
}

#[test]
fn zero_and_wrong_authority_fail_closed() {
    let trusted = trust(7);
    let mut query = allowed_query();
    query.physical_authority_id = 0;
    assert_eq!(
        evaluate_issuer_policy_scope_v1(&trusted, &query).unwrap_err(),
        IssuerPolicyScopeDenyReasonV1::ZeroPhysicalAuthorityId
    );
    query.physical_authority_id = 4;
    assert_eq!(
        evaluate_issuer_policy_scope_v1(&trusted, &query).unwrap_err(),
        IssuerPolicyScopeDenyReasonV1::PhysicalAuthorityNotAllowed
    );
}

#[test]
fn wrong_claim_profile_is_denied_exactly() {
    let trusted = trusted_endpoint_only_policy();
    let mut query = allowed_query();
    query.claim_profile = IssuerClaimProfileV1::ConsecutivePresence;
    assert_eq!(
        evaluate_issuer_policy_scope_v1(&trusted, &query).unwrap_err(),
        IssuerPolicyScopeDenyReasonV1::ClaimProfileNotAllowed
    );
}

#[test]
fn empty_scope_lists_deny_each_remaining_field_in_order() {
    let mut bare = entry(0x11, IssuerCredentialStatusV1::Active, vec![3], vec![IssuerClaimProfileV1::EndpointSample]);
    bare.session_profiles.clear();
    let no_session = vec![bare.clone()];
    let trusted = begin_local_issuer_policy_trust_bootstrap_v1()
        .trust_exact_policy_bytes::<String>(&snapshot_bytes(1), Ok((1, no_session, snapshot_bytes(1))))
        .unwrap();
    assert_eq!(
        evaluate_issuer_policy_scope_v1(&trusted, &allowed_query()).unwrap_err(),
        IssuerPolicyScopeDenyReasonV1::SessionProfileNotAllowed
    );

    bare.session_profiles = vec![IssuerSessionProfileV1::OsCsprng];
    bare.attestation_suites.clear();
    let no_suite = vec![bare.clone()];
    let trusted = begin_local_issuer_policy_trust_bootstrap_v1()
        .trust_exact_policy_bytes::<String>(&snapshot_bytes(1), Ok((1, no_suite, snapshot_bytes(1))))
        .unwrap();
    assert_eq!(
        evaluate_issuer_policy_scope_v1(&trusted, &allowed_query()).unwrap_err(),
        IssuerPolicyScopeDenyReasonV1::AttestationSuiteNotAllowed
    );

    bare.attestation_suites = vec![IssuerAttestationSuiteV1::HybridEd25519MlDsa65];
    bare.crypto_policy_profiles.clear();
    let no_crypto = vec![bare];
    let trusted = begin_local_issuer_policy_trust_bootstrap_v1()
        .trust_exact_policy_bytes::<String>(&snapshot_bytes(1), Ok((1, no_crypto, snapshot_bytes(1))))
        .unwrap();
    assert_eq!(
        evaluate_issuer_policy_scope_v1(&trusted, &allowed_query()).unwrap_err(),
        IssuerPolicyScopeDenyReasonV1::CryptoPolicyProfileNotAllowed
    );
}

#[test]
fn exact_query_is_deterministic_under_one_snapshot() {
    let trusted = trust(7);
    let query = allowed_query();
    let a = evaluate_issuer_policy_scope_v1(&trusted, &query).expect("match a");
    let b = evaluate_issuer_policy_scope_v1(&trusted, &query).expect("match b");
    assert_eq!(a.query(), b.query());
    assert_eq!(a.canonical_policy_bytes(), b.canonical_policy_bytes());
}

#[test]
fn revision_only_change_changes_snapshot_not_query_semantics() {
    let p7 = trust(7);
    let p8 = trust(8);
    let query = allowed_query();
    let m7 = evaluate_issuer_policy_scope_v1(&p7, &query).expect("revision 7 match");
    let m8 = evaluate_issuer_policy_scope_v1(&p8, &query).expect("revision 8 match");
    assert_ne!(m7.canonical_policy_bytes(), m8.canonical_policy_bytes());
    assert_eq!(m7.query(), m8.query());
}

// ---------------------------------------------------------------------------
// Observer-local perception. Positions, distances and the [0, 1] values
// are the game's floats; they reach the library quantized to basis points.
// ---------------------------------------------------------------------------

fn quantize_unit(value: f64) -> u16 {
    if !value.is_finite() {
        return 0;
    }
    (value.clamp(0.0, 1.0) * f64::from(FULL_SCALE_BPS)).round() as u16
}

fn unit_from_bps(value: u16) -> f64 {
    f64::from(value.min(FULL_SCALE_BPS)) / f64::from(FULL_SCALE_BPS)
}

fn distance(a: (f32, f32), b: (f32, f32)) -> f32 {
    ((a.0 - b.0).powi(2) + (a.1 - b.1).powi(2)).sqrt()
}

/// In-range samples as (value, confidence) in basis points.
fn sample_candidates(observer: (f32, f32), samples: &[((f32, f32), f64)], range: f32) -> Vec<(u16, u16)> {
    samples
        .iter()
        .filter_map(|(position, value)| {
            let d = distance(observer, *position);
            if !d.is_finite() || d > range {
                return None;
            }
            Some((quantize_unit(*value), quantize_unit(1.0 - f64::from(d / range))))
        })
        .collect()
}

fn strongest_sample(observer: (f32, f32), samples: &[((f32, f32), f64)], range: f32) -> Option<(f64, f64)> {
    strongest_local_sample_bps(&sample_candidates(observer, samples, range))
        .map(|(value, confidence)| (unit_from_bps(value), unit_from_bps(confidence)))
}

fn noise_cue(observer: (f32, f32), samples: &[((f32, f32), f64)], range: f32) -> f64 {
    strongest_sample(observer, samples, range).map(|(v, c)| v * c).unwrap_or(0.0).clamp(0.0, 1.0)
}

fn total_order_key(x: f32) -> i32 {
    let bits = x.to_bits() as i32;
    bits ^ ((((bits >> 31) as u32) >> 1) as i32)
}

fn strongest_target(observer: (f32, f32), samples: &[((f32, f32), f64)], range: f32) -> Option<(f32, f32)> {
    let in_range: Vec<((f32, f32), LocalTargetCandidate)> = samples
        .iter()
        .filter_map(|(position, salience)| {
            let d = distance(observer, *position);
            if !d.is_finite() || d > range {
                return None;
            }
            Some((
                *position,
                LocalTargetCandidate {
                    salience_bps: quantize_unit(*salience),
                    confidence_bps: quantize_unit(1.0 - f64::from(d / range)),
                    x_key: total_order_key(position.0),
                    y_key: total_order_key(position.1),
                },
            ))
        })
        .collect();
    let candidates: Vec<LocalTargetCandidate> = in_range.iter().map(|(_, c)| *c).collect();
    strongest_local_target_index(&candidates).map(|index| in_range[index].0)
}

#[test]
fn stale_observation_returns_explicit_prior() {
    let observation = PerceivedScalar::with_bps(quantize_unit(1.0), quantize_unit(1.0), 10, 2);
    assert_eq!(unit_from_bps(observation.effective_bps(12, 5_000)), 1.0);
    assert_eq!(unit_from_bps(observation.effective_bps(13, 5_000)), 0.5);
    assert!(!observation.is_stale(12));
    assert!(observation.is_stale(13));
}

#[test]
fn confidence_blends_observation_with_prior() {
    let observation = PerceivedScalar::with_bps(quantize_unit(1.0), quantize_unit(0.5), 1, 10);
    assert_eq!(unit_from_bps(observation.effective_bps(2, 5_000)), 0.75);
}

#[test]
fn unknown_infrastructure_uses_neutral_prior_but_danger_means_no_local_cue() {
    let frame = PerceivedWorldFrame::default();
    assert_eq!(unit_from_bps(frame.water_estimate_bps()), 0.5);
    assert_eq!(unit_from_bps(frame.power_estimate_bps()), 0.5);
    assert_eq!(unit_from_bps(frame.danger_signal_bps()), 0.0);
}

#[test]
fn frame_updates_do_not_change_world_truth_types() {
    let mut frame = PerceivedWorldFrame::default();
    assert_eq!(frame.advance(), 1);
    frame.observe_water_bps(quantize_unit(0.2), quantize_unit(1.0), 10);
    frame.observe_power_bps(quantize_unit(0.8), quantize_unit(1.0), 10);
    frame.observe_danger_bps(quantize_unit(0.6), quantize_unit(1.0), 2);
    assert_eq!(unit_from_bps(frame.water_estimate_bps()), 0.2);
    assert_eq!(unit_from_bps(frame.power_estimate_bps()), 0.8);
    assert_eq!(unit_from_bps(frame.danger_signal_bps()), 0.6);
}

#[test]
fn danger_cue_expires_after_its_lifetime() {
    let mut frame = PerceivedWorldFrame::default();
    frame.observe_danger_bps(6_000, 10_000, 2);
    frame.advance();
    frame.advance();
    assert_eq!(frame.danger_signal_bps(), 6_000);
    frame.advance();
    assert_eq!(frame.danger_signal_bps(), 0);
}

#[test]
fn saturating_generation_and_lifetime() {
    let observation = PerceivedScalar::with_bps(1, 1, u64::MAX - 1, 10);
    assert_eq!(observation.stale_after_generation, u64::MAX);
    let mut frame = PerceivedWorldFrame { generation: u64::MAX, ..PerceivedWorldFrame::default() };
    assert_eq!(frame.advance(), u64::MAX);
}

#[test]
fn attenuated_signal_is_value_times_confidence() {
    assert_eq!(attenuated_signal_bps(10_000, 7_500), 7_500);
    assert_eq!(attenuated_signal_bps(8_000, 5_000), 4_000);
    assert_eq!(attenuated_signal_bps(0, 10_000), 0);
}

#[test]
fn strongest_sample_is_independent_of_iteration_order() {
    let observer = (0.0, 0.0);
    let samples = [((10.0, 0.0), 0.2), ((2.0, 0.0), 0.8)];
    let reversed = [samples[1], samples[0]];
    assert_eq!(strongest_sample(observer, &samples, 20.0), strongest_sample(observer, &reversed, 20.0));
}

#[test]
fn zero_confidence_boundary_sample_is_not_an_observation() {
    let samples = [((20.0, 0.0), 1.0)];
    assert_eq!(strongest_sample((0.0, 0.0), &samples, 20.0), None);
}

#[test]
fn nearby_silent_sample_does_not_mask_farther_strong_signal() {
    let samples = [((0.0, 0.0), 0.0), ((5.0, 0.0), 1.0)];
    let cue = noise_cue((0.0, 0.0), &samples, 20.0);
    assert!(cue > 0.7);
}

#[test]
fn out_of_range_sample_is_not_observed() {
    let samples = [((100.0, 0.0), 1.0)];
    assert_eq!(strongest_sample((0.0, 0.0), &samples, 50.0), None);
}

#[test]
fn noise_cue_is_local_and_distance_attenuated() {
    let samples = [((5.0, 0.0), 1.0)];
    let near = noise_cue((0.0, 0.0), &samples, 20.0);
    let far = noise_cue((-10.0, 0.0), &samples, 20.0);
    assert!(near > far);
}

#[test]
fn target_selection_is_local_and_iteration_order_independent() {
    let observer = (0.0, 0.0);
    let samples = [((80.0, 0.0), 1.0), ((10.0, 0.0), 0.8)];
    let reversed = [samples[1], samples[0]];
    assert_eq!(strongest_target(observer, &samples, 100.0), strongest_target(observer, &reversed, 100.0));
    assert_eq!(strongest_target(observer, &samples, 50.0).expect("near candidate is observable"), (10.0, 0.0));
}

#[test]
fn target_ties_use_coordinate_order_not_query_order() {
    let observer = (0.0, 0.0);
    let samples = [((3.0, 4.0), 1.0), ((-3.0, 4.0), 1.0)];
    let reversed = [samples[1], samples[0]];
    let a = strongest_target(observer, &samples, 10.0).unwrap();
    let b = strongest_target(observer, &reversed, 10.0).unwrap();
    assert_eq!(a, b);
    assert_eq!(a, (-3.0, 4.0));
}

#[test]
fn zero_salience_or_out_of_range_targets_are_not_actionable() {
    let samples = [((1.0, 0.0), 0.0), ((100.0, 0.0), 1.0)];
    assert_eq!(strongest_target((0.0, 0.0), &samples, 50.0), None);
}

#[test]
fn sample_ranking_prefers_signal_then_confidence_then_value() {
    assert_eq!(strongest_local_sample_bps(&[(4_000, 5_000), (2_000, 10_000)]), Some((2_000, 10_000)));
    assert_eq!(strongest_local_sample_bps(&[(10_000, 2_000), (2_000, 10_000)]), Some((2_000, 10_000)));
    assert_eq!(strongest_local_sample_bps(&[]), None);
}

// ---------------------------------------------------------------------------
// Epistemic levels.
// ---------------------------------------------------------------------------

#[test]
fn epistemic_tags_advance_and_degrade_within_bounds() {
    let mut tag = EpistemicTag::default();
    assert_eq!(tag.label(), "E0:Unverifiable");
    tag.degrade();
    assert_eq!(tag.level(), 0);
    for _ in 0..6 {
        tag.advance();
    }
    assert_eq!(tag.level(), 4);
    assert_eq!(tag.label(), "E4:Verified");
    tag.degrade();
    assert_eq!(tag.label(), "E3:Measurable");
    assert_eq!(EpistemicTag(1).label(), "E1:Anecdotal");
    assert_eq!(EpistemicTag(2).label(), "E2:Observable");
}

#[test]
fn aggregate_level_is_highest_level_with_two_items() {
    let mut state = PlayerEpistemicState::default();
    state.verified_counts = [5, 2, 1, 2, 1];
    state.recompute_level();
    assert_eq!(state.level, 3);
    state.verified_counts = [1, 1, 1, 1, 1];
    state.recompute_level();
    assert_eq!(state.level, 0);
}

#[test]
fn advancement_round_follows_confirmations_and_contributions() {
    let mut state = PlayerEpistemicState::default();
    let mut tags = vec![EpistemicTag(0), EpistemicTag(1), EpistemicTag(2), EpistemicTag(3), EpistemicTag(4)];
    assert!(state.advance_items(&mut tags, 2, false));
    assert_eq!(tags, vec![EpistemicTag(1), EpistemicTag(2), EpistemicTag(2), EpistemicTag(3), EpistemicTag(4)]);
    assert_eq!(state.verified_counts, [0, 1, 2, 1, 1]);
    assert_eq!(state.level, 2);

    let mut settled = vec![EpistemicTag(1), EpistemicTag(4)];
    let before = state.clone();
    assert!(!state.advance_items(&mut settled, 0, false));
    assert_eq!(state, before);
}

#[test]
fn coercion_degrades_every_item_and_caps_the_level_at_e1() {
    let mut state = PlayerEpistemicState::default();
    let mut tags = vec![EpistemicTag(4), EpistemicTag(4), EpistemicTag(4), EpistemicTag(0)];
    state.recount(&tags);
    assert_eq!(state.level, 4);
    let degraded = state.apply_coercion_penalty(&mut tags);
    assert_eq!(degraded, 3);
    assert_eq!(tags, vec![EpistemicTag(3), EpistemicTag(3), EpistemicTag(3), EpistemicTag(0)]);
    assert!(state.coercion_active);
    assert_eq!(state.verified_counts, [1, 0, 0, 3, 0]);
    assert_eq!(state.level, 1);
}

// ---------------------------------------------------------------------------
// Scripts, presets and small state.
// ---------------------------------------------------------------------------

#[test]
fn cinematic_script_runs_ninety_seconds_in_order() {
    let mut phase = CinematicPhase::FadeIn;
    let mut total = 0;
    let mut globe_phases = 0;
    while phase != CinematicPhase::Done {
        total += phase.duration_secs();
        if phase.is_globe() {
            globe_phases += 1;
        }
        phase = phase.next();
    }
    assert_eq!(total, 90);
    assert_eq!(globe_phases, 10);
    assert_eq!(CinematicPhase::Done.next(), CinematicPhase::Done);
    assert!(!CinematicPhase::FadeToGlobe.is_globe());
    assert!(CinematicPhase::GlobeHolo.is_globe());
}

#[test]
fn demo_script_runs_thirty_seconds_in_order() {
    let mut phase = DemoPhase::Opening;
    let mut total = 0;
    while phase != DemoPhase::Done {
        total += phase.duration_secs();
        phase = phase.next();
    }
    assert_eq!(total, 30);
    assert_eq!(DemoPhase::Done.next(), DemoPhase::Done);
}

#[test]
fn data_views_cycle_through_all_presets() {
    let mut view = DataView::default();
    assert_eq!(view, DataView::Off);
    assert_eq!(view.label(), "OVERLAYS OFF");
    let mut labels = Vec::new();
    for _ in 0..7 {
        view = view.next();
        labels.push(view.label());
    }
    assert_eq!(view, DataView::Off);
    assert_eq!(
        labels,
        vec!["ALL DATA", "ENERGY", "CLIMATE", "CIVILIZATION", "INFRASTRUCTURE", "INTERPLANETARY", "OVERLAYS OFF"]
    );
}

#[test]
fn harmonies_sit_at_their_own_slots() {
    for (slot, harmony) in Harmony::all().iter().enumerate() {
        assert_eq!(harmony.index(), slot);
    }
    assert_eq!(Harmony::SacredStillness.name(), "Sacred Stillness");
    assert_eq!(Harmony::ResonantCoherence.name(), "Resonant Coherence");
}

#[test]
fn default_is_2d() {
    assert_eq!(DimensionMode::default(), DimensionMode::D2);
    assert_eq!(DimensionMode::D2.name(), "2D");
    assert_eq!(DimensionMode::D2Half.name(), "2.5D");
}

#[test]
fn w_slider_only_in_4d() {
    assert!(!DimensionMode::D2.has_w_slider());
    assert!(!DimensionMode::D3.has_w_slider());
    assert!(DimensionMode::D4.has_w_slider());
}

#[test]
fn tend_credit_allows_spending_down_to_the_limit() {
    let balance = TendBalance::new(100);
    assert!(balance.can_spend(100));
    assert!(!balance.can_spend(101));
    assert!(TendBalance::default().can_spend(0));
    assert!(!TendBalance::default().can_spend(1));
}

#[test]
fn governance_log_keeps_the_newest_twenty_messages() {
    let mut log = GovernanceLog::new();
    for index in 0..25_u32 {
        log.push(index);
    }
    assert_eq!(log.messages().len(), 20);
    assert_eq!(log.messages()[0], 5);
    assert_eq!(log.messages()[19], 24);
}

#[test]
fn world_scales_show_entities_or_aggregates() {
    assert!(WorldScale::Micro.shows_entities());
    assert!(!WorldScale::Micro.shows_aggregates());
    assert!(WorldScale::Meso.shows_aggregates());
    assert!(!WorldScale::Meso.shows_world_overlays());
    assert!(WorldScale::Macro.shows_world_overlays());
    assert_eq!(WorldScale::Micro.target_fps_hz(), 60);
    assert_eq!(WorldScale::Meso.target_fps_hz(), 10);
    assert_eq!(WorldScale::Macro.target_fps_hz(), 2);
}

#[test]
fn service_exchange_moves_one_tend_and_keeps_the_total() {
    let mut payer = TendBalance::new(1);
    let mut payee = TendBalance::new(0);
    assert!(pay_for_service(&mut payer, &mut payee));
    assert_eq!((payer.balance, payee.balance), (-1, 1));
    assert!(!pay_for_service(&mut payer, &mut payee));
    assert_eq!((payer.balance, payee.balance), (-1, 1));
    assert_eq!(payer.balance + payee.balance, 0);
}

#[test]
fn water_crisis_vote_offers_four_futures() {
    let vote = GovernanceVote::new_water_crisis_vote();
    assert!(vote.is_active);
    assert_eq!(vote.question, "What should Seedworks become after surviving the water crisis?");
    let labels: Vec<&str> = vote.options.iter().map(|option| option.label.as_str()).collect();
    assert_eq!(labels, vec!["Public Repair", "Factory Overdrive", "Perimeter Defense", "Archive Recovery"]);
    assert_eq!(vote.options[3].effect_text, "Knowledge increases, old systems awaken.");
    assert_eq!(vote.selected_index, 0);
    assert!(!GovernanceVote::default().is_active);
}
