//! Verified canonical codecs and semantic claim identities for persisted physics evidence.
pub mod be_bytes;
pub mod evidence_session;
pub mod frame;
pub mod evidence_session_binding_codec;
pub mod ieee_bits;
pub mod endpoint_sample_codec;
pub mod endpoint_claim_identity;
pub mod consecutive_presence_codec;
pub mod consecutive_claim_identity;
pub mod semantic_commitment_preimage;
pub mod fep_perception;
pub mod scale;
pub mod qualified_persistent_endpoint;
pub mod issuer_policy;
pub mod issuer_policy_trust;
pub mod issuer_policy_membership;
pub mod epistemics;
pub mod cinematic_phase;
pub mod demo_phase;
pub mod data_view;
pub mod harmony;
pub mod dimension_mode;
pub mod tend_balance;
pub mod governance_log;
pub mod governance_vote;
pub mod dialogue;
