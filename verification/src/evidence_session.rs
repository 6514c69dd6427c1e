//! Persistence-session identifiers and the qualified session binding record.
use rand::RngCore;
use vstd::prelude::*;

verus! {

pub const EVIDENCE_SESSION_ID_LEN: usize = 32;

const ZERO_ID_RETRY_LIMIT: usize = 8;

/// True when every byte of `bytes` is zero.
pub open spec fn all_zero(bytes: Seq<u8>) -> bool {
    forall|i: int| 0 <= i < bytes.len() ==> #[trigger] bytes[i] == 0
}

/// Persistence-safe namespace for one qualified evidence-export session.
/// Its 32 bytes are never all zero.
#[derive(Copy, Clone, Debug, Hash, PartialEq, Eq)]
pub struct EvidenceSessionId([u8; EVIDENCE_SESSION_ID_LEN]);

impl View for EvidenceSessionId {
    type V = Seq<u8>;

    closed spec fn view(&self) -> Seq<u8> {
        self.0@
    }
}

impl EvidenceSessionId {
    #[verifier::type_invariant]
    spec fn nonzero(self) -> bool {
        !all_zero(self.0@)
    }

    pub fn as_bytes(&self) -> (r: &[u8; EVIDENCE_SESSION_ID_LEN])
        ensures
            r@ == self@,
            r@.len() == EVIDENCE_SESSION_ID_LEN,
            !all_zero(r@),
    {
        proof {
            use_type_invariant(self);
        }
        &self.0
    }

    pub fn to_bytes(self) -> (r: [u8; EVIDENCE_SESSION_ID_LEN])
        ensures
            r@ == self@,
            r@.len() == EVIDENCE_SESSION_ID_LEN,
            !all_zero(r@),
    {
        proof {
            use_type_invariant(&self);
        }
        self.0
    }
}

/// Exact bootstrap profile bound into the qualified session record.
#[derive(Copy, Clone, Debug, PartialEq, Eq, Structural)]
pub enum EvidenceSessionProfileV1 {
    OsCsprngBoundLiveIncarnation,
}

impl EvidenceSessionProfileV1 {
    pub open spec fn spec_code(self) -> u32 {
        match self {
            EvidenceSessionProfileV1::OsCsprngBoundLiveIncarnation => 1,
        }
    }

    pub fn code(self) -> (r: u32)
        ensures
            r == self.spec_code(),
    {
        match self {
            EvidenceSessionProfileV1::OsCsprngBoundLiveIncarnation => 1,
        }
    }
}

/// Qualified binding between one persistence session ID and one exact live
/// sealed authority incarnation, identified by its non-zero physical authority,
/// world generation and temporal incarnation identifiers.
#[derive(Debug, PartialEq, Eq)]
pub struct QualifiedEvidenceSessionBinding {
    session_id: EvidenceSessionId,
    physical_authority_id: u128,
    world_generation_id: u128,
    temporal_incarnation_id: u64,
    profile: EvidenceSessionProfileV1,
}

impl QualifiedEvidenceSessionBinding {
    #[verifier::type_invariant]
    spec fn ids_nonzero(self) -> bool {
        &&& self.physical_authority_id != 0
        &&& self.world_generation_id != 0
        &&& self.temporal_incarnation_id != 0
    }

    /// Binds a freshly minted session ID to the identifiers of one live sealed
    /// evidence incarnation under the OS-CSPRNG bootstrap profile.
    pub fn bind_live(
        session_id: EvidenceSessionId,
        physical_authority_id: u128,
        world_generation_id: u128,
        temporal_incarnation_id: u64,
    ) -> (r: Self)
        requires
            physical_authority_id != 0,
            world_generation_id != 0,
            temporal_incarnation_id != 0,
        ensures
            r.spec_session_id() == session_id@,
            r.spec_physical_authority_id() == physical_authority_id,
            r.spec_world_generation_id() == world_generation_id,
            r.spec_temporal_incarnation_id() == temporal_incarnation_id,
            r.spec_profile() == EvidenceSessionProfileV1::OsCsprngBoundLiveIncarnation,
    {
        QualifiedEvidenceSessionBinding {
            session_id,
            physical_authority_id,
            world_generation_id,
            temporal_incarnation_id,
            profile: EvidenceSessionProfileV1::OsCsprngBoundLiveIncarnation,
        }
    }

    pub closed spec fn spec_session_id(self) -> Seq<u8> {
        self.session_id@
    }

    pub closed spec fn spec_physical_authority_id(self) -> u128 {
        self.physical_authority_id
    }

    pub closed spec fn spec_world_generation_id(self) -> u128 {
        self.world_generation_id
    }

    pub closed spec fn spec_temporal_incarnation_id(self) -> u64 {
        self.temporal_incarnation_id
    }

    pub closed spec fn spec_profile(self) -> EvidenceSessionProfileV1 {
        self.profile
    }

    pub fn session_id(&self) -> (r: EvidenceSessionId)
        ensures
            r@ == self.spec_session_id(),
            r@.len() == EVIDENCE_SESSION_ID_LEN,
            !all_zero(r@),
    {
        let id = self.session_id;
        let _ = id.as_bytes();
        id
    }

    pub fn physical_authority_id(&self) -> (r: u128)
        ensures
            r == self.spec_physical_authority_id(),
            r != 0,
    {
        proof {
            use_type_invariant(self);
        }
        self.physical_authority_id
    }

    pub fn world_generation_id(&self) -> (r: u128)
        ensures
            r == self.spec_world_generation_id(),
            r != 0,
    {
        proof {
            use_type_invariant(self);
        }
        self.world_generation_id
    }

    pub fn temporal_incarnation_id(&self) -> (r: u64)
        ensures
            r == self.spec_temporal_incarnation_id(),
            r != 0,
    {
        proof {
            use_type_invariant(self);
        }
        self.temporal_incarnation_id
    }

    pub fn profile(&self) -> (r: EvidenceSessionProfileV1)
        ensures
            r == self.spec_profile(),
    {
        self.profile
    }
}

#[derive(Copy, Clone, Debug, PartialEq, Eq, Structural)]
pub enum EvidenceSessionBootstrapError {
    EntropyUnavailable,
    ZeroSessionIdRetryLimit,
}

/// Whether some byte of `bytes` is not zero.
fn any_nonzero(bytes: &[u8; EVIDENCE_SESSION_ID_LEN]) -> (r: bool)
    ensures
        r == !all_zero(bytes@),
{
    let mut i: usize = 0;
    while i < EVIDENCE_SESSION_ID_LEN
        invariant
            i <= EVIDENCE_SESSION_ID_LEN,
            bytes@.len() == EVIDENCE_SESSION_ID_LEN,
            forall|j: int| 0 <= j < i ==> #[trigger] bytes@[j] == 0,
        decreases EVIDENCE_SESSION_ID_LEN - i,
    {
        if bytes[i] != 0 {
            return true;
        }
        i = i + 1;
    }
    false
}

/// Draws session-id candidates from `fill` until one is not all zero, at most
/// eight times, handing each draw a fresh zeroed buffer. A failing draw ends
/// minting at once. Each result is one that a draw on a zeroed buffer can
/// give: an identifier is the non-zero candidate of a successful draw,
/// `EntropyUnavailable` needs a draw that can fail, and
/// `ZeroSessionIdRetryLimit` a successful draw that can leave all zeros.
pub fn mint_session_id_with<F>(fill: &mut F) -> (res: Result<EvidenceSessionId, EvidenceSessionBootstrapError>)
    where
        F: FnMut(&mut [u8; EVIDENCE_SESSION_ID_LEN]) -> Result<(), ()>,
    requires
        forall|b: &mut [u8; EVIDENCE_SESSION_ID_LEN]| call_requires(*old(fill), (b,)),
    ensures
        res matches Ok(id) ==> !all_zero(id@) && exists|
            b: &mut [u8; EVIDENCE_SESSION_ID_LEN],
            r: Result<(), ()>,
        | #[trigger] call_ensures(*old(fill), (b,), r) && all_zero((*b)@) && r is Ok && (*final(b))@
            == id@,
        res == Err::<EvidenceSessionId, EvidenceSessionBootstrapError>(
            EvidenceSessionBootstrapError::EntropyUnavailable,
        ) ==> exists|b: &mut [u8; EVIDENCE_SESSION_ID_LEN], r: Result<(), ()>|
            #[trigger] call_ensures(*old(fill), (b,), r) && all_zero((*b)@) && r is Err,
        res == Err::<EvidenceSessionId, EvidenceSessionBootstrapError>(
            EvidenceSessionBootstrapError::ZeroSessionIdRetryLimit,
        ) ==> exists|b: &mut [u8; EVIDENCE_SESSION_ID_LEN], r: Result<(), ()>|
            #[trigger] call_ensures(*old(fill), (b,), r) && all_zero((*b)@) && r is Ok && all_zero(
                (*final(b))@,
            ),
{
    let mut attempt: usize = 0;
    while attempt < ZERO_ID_RETRY_LIMIT
        invariant
            *fill == *old(fill),
            forall|b: &mut [u8; EVIDENCE_SESSION_ID_LEN]| call_requires(*fill, (b,)),
            attempt > 0 ==> exists|b: &mut [u8; EVIDENCE_SESSION_ID_LEN], r: Result<(), ()>|
                #[trigger] call_ensures(*old(fill), (b,), r) && all_zero((*b)@) && r is Ok
                    && all_zero((*final(b))@),
        decreases ZERO_ID_RETRY_LIMIT - attempt,
    {
        let mut bytes = [0u8; EVIDENCE_SESSION_ID_LEN];
        let b = &mut bytes;
        let ghost f0 = *fill;
        let ghost blank = *b;
        assert(all_zero(blank@));
        let filled = fill(b);
        proof {
            broadcast use vstd::function::group_function_axioms;

            assert(exists|d: &mut [u8; EVIDENCE_SESSION_ID_LEN]|
                call_ensures(f0, (d,), filled) && *final(d) == *b && *d == blank);
        }
        let ghost draw = choose|d: &mut [u8; EVIDENCE_SESSION_ID_LEN]|
            call_ensures(f0, (d,), filled) && *final(d) == *b && *d == blank;
        assert(call_ensures(*old(fill), (draw,), filled));
        assert(bytes == *final(draw));
        if filled.is_err() {
            return Err(EvidenceSessionBootstrapError::EntropyUnavailable);
        }
        if any_nonzero(&bytes) {
            let id = EvidenceSessionId(bytes);
            assert((*final(draw))@ == id@);
            return Ok(id);
        }
        assert(all_zero((*final(draw))@));
        attempt = attempt + 1;
    }
    Err(EvidenceSessionBootstrapError::ZeroSessionIdRetryLimit)
}

/// Fills `bytes` from the operating system CSPRNG with
/// `rand::rngs::OsRng::try_fill_bytes`, reporting whether the draw succeeded.
/// Nothing is claimed of the drawn bytes or of the outcome.
#[verifier::external_body]
fn fill_from_os_csprng(bytes: &mut [u8; EVIDENCE_SESSION_ID_LEN]) -> (r: Result<(), ()>) {
    match rand::rngs::OsRng.try_fill_bytes(bytes) {
        Ok(()) => Ok(()),
        Err(_) => Err(()),
    }
}

/// Mints a fresh 256-bit session identifier from the operating system CSPRNG,
/// redrawing all-zero candidates at most eight times in all.
pub fn mint_os_csprng_session_id() -> (res: Result<EvidenceSessionId, EvidenceSessionBootstrapError>)
    ensures
        res matches Ok(id) ==> !all_zero(id@),
{
    let mut fill = |bytes: &mut [u8; EVIDENCE_SESSION_ID_LEN]| -> (r: Result<(), ()>)
        { fill_from_os_csprng(bytes) };
    mint_session_id_with(&mut fill)
}

} // verus!
