//! The traits that a position report implements, and the checks that a
//! report has to pass before it is worth evaluating.

use vstd::prelude::*;
use vstd::string::StringExecFns;
use crate::model::Timestamp;
use crate::model::TrustScore;
use crate::model::VehicleId;
use crate::model::VehiclePosition;
use crate::model::LAT_MAX;
use crate::model::LON_MAX;
use crate::outside::utc_now_millis;
use crate::replay::distance;

verus! {

/// Something that a vehicle pseudonym identifies.
pub trait Identifiable {
    fn id(&self) -> &VehicleId;
}

/// Something that was made at a known instant.
pub trait Timestamped {
    fn timestamp(&self) -> &Timestamp;
}

/// Something that carries a trust score.
pub trait Trusted {
    fn trust_score(&self) -> TrustScore;

    fn is_trusted(&self, threshold: TrustScore) -> bool;
}

/// Something that can be checked against the clock of the machine.
pub trait Validatable {
    fn validate(&self) -> Result<(), String>;
}

/// Longest distance between a report's timestamp and the validator's clock,
/// in whole seconds (24 hours).
pub const MAX_TIMESTAMP_DISTANCE_SECS: u64 = 86_400;

/// What makes a report unfit for evaluation.
#[derive(Debug, Clone, Copy, PartialEq, Eq, Structural)]
pub enum MalformedInput {
    /// The latitude lies outside [-90°, 90°].
    LatitudeOutOfRange,
    /// The longitude lies outside [-180°, 180°].
    LongitudeOutOfRange,
    /// The sequence number is 0.
    ZeroSequence,
}

impl MalformedInput {
    /// The sentence that reports the defect.
    pub open spec fn message(&self) -> Seq<char> {
        match self {
            MalformedInput::LatitudeOutOfRange => "Invalid latitude"@,
            MalformedInput::LongitudeOutOfRange => "Invalid longitude"@,
            MalformedInput::ZeroSequence => "Sequence number cannot be 0"@,
        }
    }

    /// The sentence that reports the defect.
    pub fn to_string(&self) -> (text: String)
        ensures
            text@ == self.message(),
    {
        match self {
            MalformedInput::LatitudeOutOfRange => String::from_str("Invalid latitude"),
            MalformedInput::LongitudeOutOfRange => String::from_str("Invalid longitude"),
            MalformedInput::ZeroSequence => String::from_str("Sequence number cannot be 0"),
        }
    }
}

impl VehiclePosition {
    /// The first defect of the report, in the order latitude, longitude,
    /// sequence number, or `None` for a report that is well formed.
    pub open spec fn malformation(&self) -> Option<MalformedInput> {
        if self.position.lat < -LAT_MAX || self.position.lat > LAT_MAX {
            Some(MalformedInput::LatitudeOutOfRange)
        } else if self.position.lon < -LON_MAX || self.position.lon > LON_MAX {
            Some(MalformedInput::LongitudeOutOfRange)
        } else if self.sequence == 0 {
            Some(MalformedInput::ZeroSequence)
        } else {
            None
        }
    }

    /// Whether the report's timestamp lies more than 24 hours, counted in
    /// whole seconds, before or after the instant `now`.
    pub open spec fn timestamp_too_far(&self, now: int) -> bool {
        distance(now, self.timestamp as int) / 1000 > MAX_TIMESTAMP_DISTANCE_SECS
    }

    /// The complaint that validation at the instant `now` raises, or `None`
    /// where the report passes: the message of its first defect, or else
    /// that its timestamp is too far from `now`.
    pub open spec fn complaint_at(&self, now: int) -> Option<Seq<char>> {
        match self.malformation() {
            Some(defect) => Some(defect.message()),
            None => if self.timestamp_too_far(now) {
                Some("Timestamp too far from current time"@)
            } else {
                None
            },
        }
    }

    /// Looks for a defect that makes the report unfit for evaluation.
    pub fn check_well_formed(&self) -> (r: Result<(), MalformedInput>)
        ensures
            match r {
                Ok(()) => self.malformation() is None,
                Err(defect) => self.malformation() == Some(defect),
            },
    {
        if self.position.lat < -LAT_MAX || self.position.lat > LAT_MAX {
            Err(MalformedInput::LatitudeOutOfRange)
        } else if self.position.lon < -LON_MAX || self.position.lon > LON_MAX {
            Err(MalformedInput::LongitudeOutOfRange)
        } else if self.sequence == 0 {
            Err(MalformedInput::ZeroSequence)
        } else {
            Ok(())
        }
    }

    /// Validates the report as of the instant `now`.
    pub fn validate_at(&self, now: Timestamp) -> (r: Result<(), String>)
        ensures
            match r {
                Ok(()) => self.complaint_at(now as int) is None,
                Err(message) => self.complaint_at(now as int) == Some(message@),
            },
    {
        match self.check_well_formed() {
            Err(defect) => Err(defect.to_string()),
            Ok(()) => {
                let distance: u64 = if now >= self.timestamp {
                    now - self.timestamp
                } else {
                    self.timestamp - now
                };
                if distance / 1000 > MAX_TIMESTAMP_DISTANCE_SECS {
                    Err(String::from_str("Timestamp too far from current time"))
                } else {
                    Ok(())
                }
            },
        }
    }
}

impl Identifiable for VehiclePosition {
    fn id(&self) -> (id: &VehicleId)
        ensures
            *id == self.vehicle_id,
    {
        &self.vehicle_id
    }
}

impl Timestamped for VehiclePosition {
    fn timestamp(&self) -> (timestamp: &Timestamp)
        ensures
            *timestamp == self.timestamp,
    {
        &self.timestamp
    }
}

impl Trusted for VehiclePosition {
    /// The overall score of the trust metrics that the report carries, and 0
    /// for a report that carries none.
    fn trust_score(&self) -> (score: TrustScore)
        ensures
            score == match self.trust {
                Some(metrics) => metrics.overall_score,
                None => 0,
            },
    {
        match &self.trust {
            Some(metrics) => metrics.overall_score,
            None => 0,
        }
    }

    fn is_trusted(&self, threshold: TrustScore) -> (trusted: bool)
        ensures
            trusted == match self.trust {
                Some(metrics) => metrics.overall_score >= threshold,
                None => threshold == 0,
            },
    {
        self.trust_score() >= threshold
    }
}

impl Validatable for VehiclePosition {
    /// Validates the report as of the instant that the clock shows. A defect
    /// of the report is reported whatever the clock shows; a report without
    /// defect passes unless its timestamp is too far from the clock.
    fn validate(&self) -> (r: Result<(), String>)
        ensures
            exists|now: int|
                0 <= now && match r {
                    Ok(()) => self.complaint_at(now) is None,
                    Err(message) => self.complaint_at(now) == Some(message@),
                },
            self.malformation() matches Some(defect) ==> r matches Err(message) && message@
                == defect.message(),
    {
        let clock = utc_now_millis();
        let now: Timestamp = if clock < 0 {
            0
        } else {
            clock as u64
        };
        self.validate_at(now)
    }
}

} // verus!
