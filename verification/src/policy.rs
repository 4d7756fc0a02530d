//! The policy of the evaluation: the intervals, ceilings, thresholds and
//! weights that the guard, the classifier and the aggregator are run with.
//!
//! The policy is handed in by the caller. It is checked once, when an
//! evaluator is made, and never again while reports are evaluated.

use vstd::prelude::*;
use vstd::string::StringExecFns;
use crate::model::category;
use crate::model::category_at;
use crate::model::CATEGORIES;
use crate::config::ConfigError;
use crate::model::AnomalyType;
use crate::model::TrustScore;
use crate::model::VehicleSize;
use crate::model::SCORE_ONE;

verus! {

/// Half a turn, in millidegrees: no two bearings differ by more.
pub const HALF_TURN: u32 = 180_000;

/// The ceilings for one class of vehicles.
#[derive(Debug, Clone, Copy, PartialEq, Eq, Structural)]
pub struct KinematicLimits {
    /// Fastest speed that a vehicle of the class may declare (mm/s).
    pub max_speed: u32,
    /// Strongest acceleration that it may declare (mm/s²).
    pub max_acceleration: u32,
    /// Strongest deceleration that it may declare (mm/s²).
    pub max_deceleration: u32,
    /// Fastest speed at which it can plausibly have moved between two
    /// reports (mm/s).
    pub max_plausible_speed: u32,
}

impl KinematicLimits {
    /// Whether every ceiling is positive.
    pub open spec fn is_valid(&self) -> bool {
        &&& self.max_speed > 0
        &&& self.max_acceleration > 0
        &&& self.max_deceleration > 0
        &&& self.max_plausible_speed > 0
    }

    /// Tells whether every ceiling is positive.
    pub fn check(&self) -> (valid: bool)
        ensures
            valid == self.is_valid(),
    {
        self.max_speed > 0 && self.max_acceleration > 0 && self.max_deceleration > 0
            && self.max_plausible_speed > 0
    }
}

/// The ceilings of every size class, and those for a vehicle that declares
/// no class.
#[derive(Debug, Clone, Copy, PartialEq, Eq, Structural)]
pub struct ClassLimits {
    pub micro: KinematicLimits,
    pub small: KinematicLimits,
    pub medium: KinematicLimits,
    pub large: KinematicLimits,
    pub extra_large: KinematicLimits,
    pub oversized: KinematicLimits,
    pub unclassified: KinematicLimits,
}

impl ClassLimits {
    /// The ceilings that apply to a vehicle of the declared size class.
    pub open spec fn of(&self, size: Option<VehicleSize>) -> KinematicLimits {
        match size {
            Some(VehicleSize::Micro) => self.micro,
            Some(VehicleSize::Small) => self.small,
            Some(VehicleSize::Medium) => self.medium,
            Some(VehicleSize::Large) => self.large,
            Some(VehicleSize::ExtraLarge) => self.extra_large,
            Some(VehicleSize::Oversized) => self.oversized,
            None => self.unclassified,
        }
    }

    /// Whether the ceilings of every class are positive.
    pub open spec fn is_valid(&self) -> bool {
        &&& self.micro.is_valid()
        &&& self.small.is_valid()
        &&& self.medium.is_valid()
        &&& self.large.is_valid()
        &&& self.extra_large.is_valid()
        &&& self.oversized.is_valid()
        &&& self.unclassified.is_valid()
    }

    /// Looks up the ceilings for a declared size class.
    pub fn limits_for(&self, size: Option<VehicleSize>) -> (limits: KinematicLimits)
        ensures
            limits == self.of(size),
    {
        match size {
            Some(VehicleSize::Micro) => self.micro,
            Some(VehicleSize::Small) => self.small,
            Some(VehicleSize::Medium) => self.medium,
            Some(VehicleSize::Large) => self.large,
            Some(VehicleSize::ExtraLarge) => self.extra_large,
            Some(VehicleSize::Oversized) => self.oversized,
            None => self.unclassified,
        }
    }

    /// Tells whether the ceilings of every class are positive.
    pub fn check(&self) -> (valid: bool)
        ensures
            valid == self.is_valid(),
    {
        self.micro.check() && self.small.check() && self.medium.check() && self.large.check()
            && self.extra_large.check() && self.oversized.check() && self.unclassified.check()
    }

    /// The same ceilings for every class.
    pub fn uniform(limits: KinematicLimits) -> (all: ClassLimits)
        ensures
            forall|size: Option<VehicleSize>| all.of(size) == limits,
    {
        ClassLimits {
            micro: limits,
            small: limits,
            medium: limits,
            large: limits,
            extra_large: limits,
            oversized: limits,
            unclassified: limits,
        }
    }
}

/// The weight of each anomaly category in the anomaly score.
#[derive(Debug, Clone, Copy, PartialEq, Eq, Structural)]
pub struct AnomalyWeights {
    pub speed_violation: u32,
    pub rapid_acceleration: u32,
    pub rapid_deceleration: u32,
    pub erratic_movement: u32,
    pub position_jump: u32,
    pub sensor_inconsistency: u32,
    pub certificate_expired: u32,
    pub signature_invalid: u32,
    pub replay_attempt: u32,
    pub frequency_violation: u32,
    pub location_anomaly: u32,
    pub behavior_change: u32,
}

impl AnomalyWeights {
    /// The weight of one category.
    pub open spec fn of(&self, kind: AnomalyType) -> int {
        match kind {
            AnomalyType::SpeedViolation => self.speed_violation as int,
            AnomalyType::RapidAcceleration => self.rapid_acceleration as int,
            AnomalyType::RapidDeceleration => self.rapid_deceleration as int,
            AnomalyType::ErraticMovement => self.erratic_movement as int,
            AnomalyType::PositionJump => self.position_jump as int,
            AnomalyType::SensorInconsistency => self.sensor_inconsistency as int,
            AnomalyType::CertificateExpired => self.certificate_expired as int,
            AnomalyType::SignatureInvalid => self.signature_invalid as int,
            AnomalyType::ReplayAttempt => self.replay_attempt as int,
            AnomalyType::FrequencyViolation => self.frequency_violation as int,
            AnomalyType::LocationAnomaly => self.location_anomaly as int,
            AnomalyType::BehaviorChange => self.behavior_change as int,
        }
    }

    /// The sum of the weights of the categories that are declared in one of
    /// the first `n` places.
    pub open spec fn total_of_first(&self, n: int) -> int
        decreases n,
    {
        if n <= 0 {
            0
        } else {
            self.total_of_first(n - 1) + self.of(category(n - 1))
        }
    }

    /// The sum of the weights of all categories.
    pub open spec fn total(&self) -> int {
        self.total_of_first(CATEGORIES as int)
    }

    /// Whether every weight is positive.
    pub open spec fn is_valid(&self) -> bool {
        forall|kind: AnomalyType| self.of(kind) > 0
    }

    /// Reads the weight of one category.
    pub fn weight(&self, kind: AnomalyType) -> (weight: u32)
        ensures
            weight == self.of(kind),
    {
        match kind {
            AnomalyType::SpeedViolation => self.speed_violation,
            AnomalyType::RapidAcceleration => self.rapid_acceleration,
            AnomalyType::RapidDeceleration => self.rapid_deceleration,
            AnomalyType::ErraticMovement => self.erratic_movement,
            AnomalyType::PositionJump => self.position_jump,
            AnomalyType::SensorInconsistency => self.sensor_inconsistency,
            AnomalyType::CertificateExpired => self.certificate_expired,
            AnomalyType::SignatureInvalid => self.signature_invalid,
            AnomalyType::ReplayAttempt => self.replay_attempt,
            AnomalyType::FrequencyViolation => self.frequency_violation,
            AnomalyType::LocationAnomaly => self.location_anomaly,
            AnomalyType::BehaviorChange => self.behavior_change,
        }
    }

    /// Adds up the weights of all categories.
    pub fn total_weight(&self) -> (total: u64)
        ensures
            total == self.total(),
            total <= CATEGORIES * u32::MAX,
    {
        let mut total: u64 = 0;
        let mut n: usize = 0;
        while n < CATEGORIES
            invariant
                n <= CATEGORIES,
                total == self.total_of_first(n as int),
                total <= n * u32::MAX,
            decreases CATEGORIES - n,
        {
            total = total + self.weight(category_at(n)) as u64;
            n = n + 1;
        }
        total
    }

    /// Tells whether every weight is positive.
    pub fn check(&self) -> (valid: bool)
        ensures
            valid == self.is_valid(),
    {
        let valid = self.speed_violation > 0 && self.rapid_acceleration > 0
            && self.rapid_deceleration > 0 && self.erratic_movement > 0 && self.position_jump > 0
            && self.sensor_inconsistency > 0 && self.certificate_expired > 0
            && self.signature_invalid > 0 && self.replay_attempt > 0 && self.frequency_violation
            > 0 && self.location_anomaly > 0 && self.behavior_change > 0;
        proof {
            if !valid {
                assert(self.of(AnomalyType::SpeedViolation) == 0 || self.of(
                    AnomalyType::RapidAcceleration,
                ) == 0 || self.of(AnomalyType::RapidDeceleration) == 0 || self.of(
                    AnomalyType::ErraticMovement,
                ) == 0 || self.of(AnomalyType::PositionJump) == 0 || self.of(
                    AnomalyType::SensorInconsistency,
                ) == 0 || self.of(AnomalyType::CertificateExpired) == 0 || self.of(
                    AnomalyType::SignatureInvalid,
                ) == 0 || self.of(AnomalyType::ReplayAttempt) == 0 || self.of(
                    AnomalyType::FrequencyViolation,
                ) == 0 || self.of(AnomalyType::LocationAnomaly) == 0 || self.of(
                    AnomalyType::BehaviorChange,
                ) == 0);
            }
        }
        valid
    }

    /// The same weight for every category.
    pub fn uniform(weight: u32) -> (weights: AnomalyWeights)
        ensures
            forall|kind: AnomalyType| weights.of(kind) == weight,
    {
        AnomalyWeights {
            speed_violation: weight,
            rapid_acceleration: weight,
            rapid_deceleration: weight,
            erratic_movement: weight,
            position_jump: weight,
            sensor_inconsistency: weight,
            certificate_expired: weight,
            signature_invalid: weight,
            replay_attempt: weight,
            frequency_violation: weight,
            location_anomaly: weight,
            behavior_change: weight,
        }
    }
}

impl Default for AnomalyWeights {
    /// Every category weighs the same.
    fn default() -> (weights: Self)
        ensures
            forall|kind: AnomalyType| weights.of(kind) == SCORE_ONE,
            weights.is_valid(),
    {
        AnomalyWeights::uniform(SCORE_ONE)
    }
}

/// The weight of each sub-score in the overall trust score.
#[derive(Debug, Clone, Copy, PartialEq, Eq, Structural)]
pub struct TrustWeights {
    pub behavior: u32,
    pub certificate: u32,
    pub history: u32,
    pub proximity: u32,
    pub sensor: u32,
}

impl TrustWeights {
    /// The sum of the five weights.
    pub open spec fn total(&self) -> int {
        self.behavior + self.certificate + self.history + self.proximity + self.sensor
    }

    /// Whether every weight is positive.
    pub open spec fn is_valid(&self) -> bool {
        &&& self.behavior > 0
        &&& self.certificate > 0
        &&& self.history > 0
        &&& self.proximity > 0
        &&& self.sensor > 0
    }

    /// Tells whether every weight is positive.
    pub fn check(&self) -> (valid: bool)
        ensures
            valid == self.is_valid(),
    {
        self.behavior > 0 && self.certificate > 0 && self.history > 0 && self.proximity > 0
            && self.sensor > 0
    }
}

impl Default for TrustWeights {
    /// Behavior 0.30, certificate 0.25, history 0.15, proximity 0.10 and
    /// sensor 0.20: together 1.
    fn default() -> (weights: Self)
        ensures
            weights == (TrustWeights {
                behavior: 300_000,
                certificate: 250_000,
                history: 150_000,
                proximity: 100_000,
                sensor: 200_000,
            }),
            weights.total() == SCORE_ONE,
            weights.is_valid(),
    {
        TrustWeights {
            behavior: 300_000,
            certificate: 250_000,
            history: 150_000,
            proximity: 100_000,
            sensor: 200_000,
        }
    }
}

/// Everything that an evaluation is configured with.
#[derive(Debug, Clone, Copy, PartialEq, Eq, Structural)]
pub struct EvaluatorConfig {
    /// Pseudonym rotation interval (ms): an identity that sent no report for
    /// longer than this is stale.
    pub rotation_interval_ms: u64,
    /// Clock-skew tolerance (ms): the farthest that a report's timestamp may
    /// lie from the evaluation time.
    pub max_clock_skew_ms: u64,
    /// Least time between two reports of one identity (ms); 0 sets no limit.
    pub min_report_interval_ms: u64,
    /// How long before its expiry a certificate counts as near expiry (ms).
    pub cert_expiry_warning_ms: u64,
    /// Change of bearing between two reports above which a fast vehicle
    /// moves erratically (millidegrees).
    pub erratic_bearing_change: u32,
    /// Speed from which on a vehicle counts as fast (mm/s).
    pub erratic_min_speed: u32,
    /// Tolerated gap between declared and measured speed (mm/s).
    pub sensor_speed_tolerance: u32,
    /// Number of sensor inconsistencies in 24 hours at which the sensor
    /// score reaches 0.
    pub sensor_inconsistency_limit: u32,
    /// Score from which on a nearby vehicle counts as trusted.
    pub proximity_trust_threshold: TrustScore,
    /// Weight of each anomaly category.
    pub anomaly_weights: AnomalyWeights,
    /// Weight of each trust sub-score.
    pub trust_weights: TrustWeights,
    /// Speed and acceleration ceilings by size class.
    pub limits: ClassLimits,
}

impl EvaluatorConfig {
    /// Whether the thresholds of the classifier and the aggregator are
    /// positive and within their ranges.
    pub open spec fn thresholds_valid(&self) -> bool {
        &&& 0 < self.erratic_bearing_change <= HALF_TURN
        &&& self.erratic_min_speed > 0
        &&& self.sensor_speed_tolerance > 0
        &&& self.sensor_inconsistency_limit > 0
        &&& 0 < self.proximity_trust_threshold <= SCORE_ONE
    }

    /// The first rule that the policy breaks, by its message, or `None`
    /// where it keeps all of them.
    pub open spec fn first_violation(&self) -> Option<Seq<char>> {
        if !self.anomaly_weights.is_valid() {
            Some("Anomaly weights must be positive"@)
        } else if !self.trust_weights.is_valid() {
            Some("Trust weights must be positive"@)
        } else if self.rotation_interval_ms == 0 {
            Some("Rotation interval must be positive"@)
        } else if self.max_clock_skew_ms == 0 {
            Some("Clock skew tolerance must be positive"@)
        } else if !self.limits.is_valid() {
            Some("Speed and acceleration ceilings must be positive"@)
        } else if !self.thresholds_valid() {
            Some("Thresholds must be positive and within range"@)
        } else {
            None
        }
    }

    /// Whether the policy keeps every rule.
    pub open spec fn is_valid(&self) -> bool {
        self.first_violation() is None
    }

    /// Checks the policy and reports the first rule that it breaks.
    pub fn validate(&self) -> (r: Result<(), ConfigError>)
        ensures
            match r {
                Ok(()) => self.is_valid(),
                Err(ConfigError::ValidationError(message)) => self.first_violation() == Some(
                    message@,
                ),
                Err(ConfigError::LoadError(_)) => false,
            },
    {
        if !self.anomaly_weights.check() {
            return Err(broken("Anomaly weights must be positive"));
        }
        if !self.trust_weights.check() {
            return Err(broken("Trust weights must be positive"));
        }
        if self.rotation_interval_ms == 0 {
            return Err(broken("Rotation interval must be positive"));
        }
        if self.max_clock_skew_ms == 0 {
            return Err(broken("Clock skew tolerance must be positive"));
        }
        if !self.limits.check() {
            return Err(broken("Speed and acceleration ceilings must be positive"));
        }
        let thresholds_valid = 0 < self.erratic_bearing_change && self.erratic_bearing_change
            <= HALF_TURN && self.erratic_min_speed > 0 && self.sensor_speed_tolerance > 0
            && self.sensor_inconsistency_limit > 0 && 0 < self.proximity_trust_threshold
            && self.proximity_trust_threshold <= SCORE_ONE;
        if !thresholds_valid {
            return Err(broken("Thresholds must be positive and within range"));
        }
        Ok(())
    }
}

/// The error for a broken rule, carrying the rule's message.
fn broken(message: &str) -> (e: ConfigError)
    ensures
        e matches ConfigError::ValidationError(text) && text@ == message@,
{
    ConfigError::ValidationError(String::from_str(message))
}

} // verus!
