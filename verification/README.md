# symtropy_evidence

Verified canonical codecs and semantic claim identities for persisted physics
evidence of the Symtropy engine, together with the small decision rules of the
game around them.

## Layout

- `src/` — the library, verified with Verus.
  - `be_bytes`, `frame` — big-endian byte helpers and the evidence-frame view
    the codecs receive from the physics crate's envelope decoder.
  - `evidence_session`, `evidence_session_binding_codec` — session identifiers
    (never all zero) and the 80-byte session-binding payload.
  - `ieee_bits`, `endpoint_sample_codec`, `endpoint_claim_identity` — endpoint
    samples, their fail-closed decoder and their semantic position/value
    transcripts.
  - `consecutive_presence_codec`, `consecutive_claim_identity` — ordered
    relations of two adjacent inside samples and their transcripts.
  - `semantic_commitment_preimage` — domain-separated commitment preimages.
  - `qualified_persistent_endpoint` — producing a canonical sample from a live
    qualified observation and matching it back exactly.
  - `issuer_policy`, `issuer_policy_trust`, `issuer_policy_membership` — local
    trust of one exact issuer-policy snapshot and scope evaluation against it.
  - `fep_perception`, `epistemics`, `governance_log`, `governance_vote`,
    `tend_balance`,
    `cinematic_phase`, `demo_phase`, `data_view`, `harmony`, `dimension_mode`,
    `scale` — observer-local perception in basis points and game state rules.
  - `dialogue` — the line a crew member speaks, from name, needs and
    consciousness bottleneck.
- `tests/` — executable tests, golden vectors included.
- `app/` — the launcher and the adapters to the physics crate's frame envelope,
  live capture and policy codec, and to the game's floating-point values.
