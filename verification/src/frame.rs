//! The physics evidence frame envelope, as the rest of the library receives it.
//!
//! Framing (magic, kind label, frame version, payload length) belongs to the
//! physics crate's frame codec. The codecs of this library start where that
//! envelope decoder stops: they receive the declared frame kind, the payload
//! bytes and the envelope's payload limit.
use vstd::prelude::*;

verus! {

/// Kind of one physics evidence frame.
#[derive(Copy, Clone, Debug, PartialEq, Eq, Structural)]
pub enum EvidenceFrameKindV1 {
    EvidenceSessionBinding,
    EndpointSample,
    ConsecutiveSampledPresence,
}

/// One evidence frame after envelope decoding: the frame bytes that were
/// decoded, the kind they declare, their payload, and the largest payload
/// length the envelope format admits.
#[derive(Copy, Clone, Debug)]
pub struct EvidenceFrameV1<'a> {
    pub bytes: &'a [u8],
    pub kind: EvidenceFrameKindV1,
    pub payload: &'a [u8],
    pub payload_limit: usize,
}

} // verus!
