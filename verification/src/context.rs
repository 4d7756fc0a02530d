//! What the caller resolves before an evaluation and hands in with the
//! report: the clock, the network epoch, the verdict of the PKI, and the
//! signals of the collaborators that may or may not be at hand.

use vstd::prelude::*;
use crate::model::Timestamp;
use crate::model::TrustScore;
use crate::model::VehicleId;

verus! {

/// A signal of an outside collaborator: at hand, or not.
#[derive(Debug, Clone)]
pub enum Signal<T> {
    /// The collaborator gave no answer; a neutral default stands in.
    Unavailable,
    /// The collaborator's answer.
    Value(T),
}

/// The verdict of the PKI on the certificate and the signature of a report.
#[derive(Debug, Clone, Copy, PartialEq, Eq, Structural)]
pub struct PkiVerdict {
    /// The certificate chain was validated.
    pub certificate_valid: bool,
    /// The signature was verified.
    pub signature_valid: bool,
    /// When the certificate expires.
    pub cert_expiry_time: Timestamp,
}

/// A vehicle near the reported position, with the trust it has earned.
#[derive(Debug, Clone, Copy, PartialEq, Eq, Structural)]
pub struct Neighbor {
    pub vehicle_id: VehicleId,
    pub trust_score: TrustScore,
}

/// The move from the last remembered position to the reported one, as the
/// caller measured it on the globe.
#[derive(Debug, Clone, Copy, PartialEq, Eq, Structural)]
pub struct Motion {
    /// Great-circle distance (mm).
    pub distance_mm: u64,
    /// Initial bearing (millidegrees).
    pub bearing: u32,
}

/// Everything beside the report and the identity's memory that an evaluation
/// depends on.
#[derive(Debug, Clone)]
pub struct EvaluationContext {
    /// The instant of the evaluation.
    pub now: Timestamp,
    /// The current network epoch.
    pub current_epoch: u64,
    /// The verdict of the PKI on the report.
    pub pki: PkiVerdict,
    /// The vehicles near the reported position.
    pub proximity: Signal<Vec<Neighbor>>,
    /// The moving average of the overall scores of the pseudonym's lineage.
    pub lineage: Signal<TrustScore>,
    /// The move since the last remembered position.
    pub motion: Signal<Motion>,
}

} // verus!
