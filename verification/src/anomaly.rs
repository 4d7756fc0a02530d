//! The anomaly classifier: a handful of independent rules, each of which
//! raises one category of anomaly or none, and the score that weighs what
//! was raised.

use vstd::prelude::*;
use crate::context::EvaluationContext;
use crate::context::Motion;
use crate::context::Signal;
use crate::model::AnomalyScore;
use crate::model::category;
use crate::model::category_at;
use crate::model::place;
use crate::model::AnomalyType;
use crate::model::CATEGORIES;
use crate::model::Position;
use crate::model::VehiclePosition;
use crate::model::VehicleSize;
use crate::model::FULL_TURN;
use crate::model::SCORE_ONE;
use crate::policy::AnomalyWeights;
use crate::policy::EvaluatorConfig;
use crate::policy::KinematicLimits;
use crate::policy::HALF_TURN;
use crate::replay::distance;
use crate::replay::distance_between;
use crate::replay::view_of;
use crate::replay::IdentityState;
use crate::replay::IdentityStateView;
use crate::replay::ReplayVerdict;

verus! {

/// A set of anomaly categories: for each category, whether it was raised.
#[derive(Debug, Clone, Copy, PartialEq, Eq, Structural)]
pub struct AnomalySet {
    pub speed_violation: bool,
    pub rapid_acceleration: bool,
    pub rapid_deceleration: bool,
    pub erratic_movement: bool,
    pub position_jump: bool,
    pub sensor_inconsistency: bool,
    pub certificate_expired: bool,
    pub signature_invalid: bool,
    pub replay_attempt: bool,
    pub frequency_violation: bool,
    pub location_anomaly: bool,
    pub behavior_change: bool,
}

impl AnomalySet {
    /// Whether the category `kind` is in the set.
    pub open spec fn contains(&self, kind: AnomalyType) -> bool {
        match kind {
            AnomalyType::SpeedViolation => self.speed_violation,
            AnomalyType::RapidAcceleration => self.rapid_acceleration,
            AnomalyType::RapidDeceleration => self.rapid_deceleration,
            AnomalyType::ErraticMovement => self.erratic_movement,
            AnomalyType::PositionJump => self.position_jump,
            AnomalyType::SensorInconsistency => self.sensor_inconsistency,
            AnomalyType::CertificateExpired => self.certificate_expired,
            AnomalyType::SignatureInvalid => self.signature_invalid,
            AnomalyType::ReplayAttempt => self.replay_attempt,
            AnomalyType::FrequencyViolation => self.frequency_violation,
            AnomalyType::LocationAnomaly => self.location_anomaly,
            AnomalyType::BehaviorChange => self.behavior_change,
        }
    }

    /// The categories of the set that are declared in one of the first `n`
    /// places, as a list in the order of their places.
    pub open spec fn first(&self, n: int) -> Seq<AnomalyType>
        decreases n,
    {
        if n <= 0 {
            Seq::empty()
        } else if self.contains(category(n - 1)) {
            self.first(n - 1).push(category(n - 1))
        } else {
            self.first(n - 1)
        }
    }

    /// The categories of the set as a list, in the order in which
    /// `AnomalyType` declares them.
    pub open spec fn to_seq(&self) -> Seq<AnomalyType> {
        self.first(CATEGORIES as int)
    }

    /// The weight of the categories of the set that are declared in one of
    /// the first `n` places.
    pub open spec fn weight_of_first(&self, weights: AnomalyWeights, n: int) -> int
        decreases n,
    {
        if n <= 0 {
            0
        } else {
            self.weight_of_first(weights, n - 1) + self.share(weights, category(n - 1))
        }
    }

    /// The weight that the category `kind` adds to the set: its weight where
    /// it is in the set, and nothing where it is not.
    pub open spec fn share(&self, weights: AnomalyWeights, kind: AnomalyType) -> int {
        if self.contains(kind) {
            weights.of(kind)
        } else {
            0
        }
    }

    /// The sum of the weights of the categories in the set.
    pub open spec fn weight(&self, weights: AnomalyWeights) -> int {
        self.weight_of_first(weights, CATEGORIES as int)
    }

    /// The anomaly score of the set: the weight of its categories as a part
    /// of the weight of all categories, in millionths, rounded down.
    pub open spec fn score(&self, weights: AnomalyWeights) -> int {
        if weights.total() == 0 {
            0
        } else {
            SCORE_ONE * self.weight(weights) / weights.total()
        }
    }

    /// The set without any category.
    pub open spec fn nothing() -> AnomalySet {
        AnomalySet {
            speed_violation: false,
            rapid_acceleration: false,
            rapid_deceleration: false,
            erratic_movement: false,
            position_jump: false,
            sensor_inconsistency: false,
            certificate_expired: false,
            signature_invalid: false,
            replay_attempt: false,
            frequency_violation: false,
            location_anomaly: false,
            behavior_change: false,
        }
    }

    /// Makes the set without any category.
    pub fn empty() -> (set: AnomalySet)
        ensures
            set == AnomalySet::nothing(),
    {
        AnomalySet {
            speed_violation: false,
            rapid_acceleration: false,
            rapid_deceleration: false,
            erratic_movement: false,
            position_jump: false,
            sensor_inconsistency: false,
            certificate_expired: false,
            signature_invalid: false,
            replay_attempt: false,
            frequency_violation: false,
            location_anomaly: false,
            behavior_change: false,
        }
    }

    /// Tells whether a category is in the set.
    pub fn has(&self, kind: AnomalyType) -> (present: bool)
        ensures
            present == self.contains(kind),
    {
        match kind {
            AnomalyType::SpeedViolation => self.speed_violation,
            AnomalyType::RapidAcceleration => self.rapid_acceleration,
            AnomalyType::RapidDeceleration => self.rapid_deceleration,
            AnomalyType::ErraticMovement => self.erratic_movement,
            AnomalyType::PositionJump => self.position_jump,
            AnomalyType::SensorInconsistency => self.sensor_inconsistency,
            AnomalyType::CertificateExpired => self.certificate_expired,
            AnomalyType::SignatureInvalid => self.signature_invalid,
            AnomalyType::ReplayAttempt => self.replay_attempt,
            AnomalyType::FrequencyViolation => self.frequency_violation,
            AnomalyType::LocationAnomaly => self.location_anomaly,
            AnomalyType::BehaviorChange => self.behavior_change,
        }
    }

    /// Lists the categories of the set.
    pub fn to_vec(&self) -> (list: Vec<AnomalyType>)
        ensures
            list@ == self.to_seq(),
    {
        let mut list: Vec<AnomalyType> = Vec::new();
        let mut n: usize = 0;
        while n < CATEGORIES
            invariant
                n <= CATEGORIES,
                list@ == self.first(n as int),
            decreases CATEGORIES - n,
        {
            let kind = category_at(n);
            if self.has(kind) {
                list.push(kind);
            }
            n = n + 1;
        }
        list
    }

    /// Adds up the weights of the categories in the set.
    pub fn active_weight(&self, weights: &AnomalyWeights) -> (active: u64)
        ensures
            active == self.weight(*weights),
            active <= weights.total(),
    {
        let mut active: u64 = 0;
        let mut n: usize = 0;
        while n < CATEGORIES
            invariant
                n <= CATEGORIES,
                active == self.weight_of_first(*weights, n as int),
                active <= weights.total_of_first(n as int) <= n * u32::MAX,
            decreases CATEGORIES - n,
        {
            let kind = category_at(n);
            if self.has(kind) {
                active = active + weights.weight(kind) as u64;
            }
            n = n + 1;
        }
        active
    }

    /// Computes the anomaly score of the set.
    pub fn anomaly_score(&self, weights: &AnomalyWeights) -> (score: AnomalyScore)
        ensures
            score == self.score(*weights),
            score <= SCORE_ONE,
    {
        let total = weights.total_weight();
        let active = self.active_weight(weights);
        if total == 0 {
            0
        } else {
            proof {
                lemma_part_of_whole(active as int, total as int);
            }
            ((SCORE_ONE as u64) * active / total) as u32
        }
    }
}

/// A part of a whole, in millionths, is at most a million.
pub proof fn lemma_part_of_whole(part: int, whole: int)
    requires
        0 <= part <= whole,
        0 < whole,
    ensures
        0 <= SCORE_ONE * part / whole <= SCORE_ONE,
{
    assert(SCORE_ONE * part <= SCORE_ONE * whole) by (nonlinear_arith)
        requires
            0 <= part <= whole,
    ;
    vstd::arithmetic::div_mod::lemma_div_is_ordered(SCORE_ONE * part, SCORE_ONE * whole, whole);
    vstd::arithmetic::div_mod::lemma_div_is_ordered(0, SCORE_ONE * part, whole);
    assert(SCORE_ONE * whole == whole * SCORE_ONE) by (nonlinear_arith);
    vstd::arithmetic::div_mod::lemma_div_multiples_vanish(SCORE_ONE as int, whole);
}

/// The list of the first `n` places holds a category exactly where the set
/// holds it and it is declared in one of these places; it holds none twice.
pub proof fn lemma_first(set: AnomalySet, n: int)
    requires
        0 <= n <= CATEGORIES,
    ensures
        forall|kind: AnomalyType|
            #[trigger] set.first(n).contains(kind) <==> (set.contains(kind) && place(kind) < n),
        set.first(n).no_duplicates(),
        set.first(n).len() <= n,
    decreases n,
{
    if n > 0 {
        lemma_first(set, n - 1);
        let shorter = set.first(n - 1);
        let added = category(n - 1);
        assert(place(added) == n - 1);
        assert(!shorter.contains(added));
        if set.contains(added) {
            let longer = shorter.push(added);
            assert(longer == set.first(n));
            assert forall|kind: AnomalyType|
                #[trigger] longer.contains(kind) <==> (set.contains(kind) && place(kind) < n) by {
                assert(shorter.contains(kind) <==> (set.contains(kind) && place(kind) < n - 1));
                if longer.contains(kind) && !shorter.contains(kind) {
                    let i = choose|i: int| 0 <= i < longer.len() && longer[i] == kind;
                    if i < shorter.len() {
                        assert(shorter[i] == kind);
                    }
                }
                if shorter.contains(kind) {
                    let i = choose|i: int| 0 <= i < shorter.len() && shorter[i] == kind;
                    assert(longer[i] == kind);
                }
                if kind == added {
                    assert(longer[shorter.len() as int] == kind);
                }
                if place(kind) == n - 1 {
                    assert(kind == added);
                }
            }
            assert forall|i: int, j: int|
                0 <= i < longer.len() && 0 <= j < longer.len() && i != j implies longer[i]
                != longer[j] by {
                if i < shorter.len() && j < shorter.len() {
                } else if i < shorter.len() {
                    assert(shorter.contains(shorter[i]));
                } else {
                    assert(shorter.contains(shorter[j]));
                }
            }
        } else {
            assert forall|kind: AnomalyType|
                #[trigger] shorter.contains(kind) <==> (set.contains(kind) && place(kind) < n) by {
                if place(kind) == n - 1 {
                    assert(kind == added);
                }
            }
        }
    }
}

/// A category is in the list of a set exactly where it is in the set, and
/// the list names no category twice: what was raised is listed, and nothing
/// else is.
pub proof fn lemma_list_is_the_set(set: AnomalySet)
    ensures
        forall|kind: AnomalyType| #[trigger] set.to_seq().contains(kind) <==> set.contains(kind),
        set.to_seq().no_duplicates(),
        set.to_seq().len() <= CATEGORIES,
{
    lemma_first(set, CATEGORIES as int);
}

/// The absolute value of a number.
pub open spec fn magnitude(x: int) -> int {
    if x < 0 {
        -x
    } else {
        x
    }
}

/// The radius within which a position is accurate (mm): its horizontal
/// accuracy, and 0 where it gives none.
pub open spec fn accuracy_radius(position: Position) -> int {
    match position.accuracy_horizontal {
        Some(radius) => radius as int,
        None => 0,
    }
}

/// The size class that a report declares, if it declares one.
pub open spec fn declared_size(report: VehiclePosition) -> Option<VehicleSize> {
    match report.metadata {
        Some(metadata) => Some(metadata.size),
        None => None,
    }
}

/// The move that the rules may rely on: the one the caller measured, where
/// there is a remembered position that it was measured from.
pub open spec fn measured_motion(
    memory: Option<IdentityStateView>,
    context: EvaluationContext,
) -> Option<Motion> {
    match (memory, context.motion) {
        (Some(_), Signal::Value(motion)) => Some(motion),
        _ => None,
    }
}

/// The angle between two bearings (millidegrees): at most half a turn.
pub open spec fn bearing_change(a: int, b: int) -> int {
    let apart = distance(a % (FULL_TURN as int), b % (FULL_TURN as int));
    if apart > HALF_TURN {
        FULL_TURN - apart
    } else {
        apart
    }
}

/// The declared speed exceeds the ceiling of the vehicle's class.
pub open spec fn speed_violation(report: VehiclePosition, limits: KinematicLimits) -> bool {
    report.velocity matches Some(v) && v.speed > limits.max_speed
}

/// The magnitude of the declared acceleration exceeds the ceiling.
pub open spec fn rapid_acceleration(report: VehiclePosition, limits: KinematicLimits) -> bool {
    report.velocity matches Some(v) && v.acceleration matches Some(a) && magnitude(a as int)
        > limits.max_acceleration
}

/// The magnitude of the declared deceleration exceeds the ceiling.
pub open spec fn rapid_deceleration(report: VehiclePosition, limits: KinematicLimits) -> bool {
    report.velocity matches Some(v) && v.deceleration matches Some(d) && magnitude(d as int)
        > limits.max_deceleration
}

/// The vehicle cannot have moved that far in the time between the two
/// reports: the distance divided by the time exceeds the plausible speed of
/// its class. A move within the sum of the two positions' accuracy radii is
/// no jump, however short the time.
pub open spec fn position_jump(
    report: VehiclePosition,
    memory: Option<IdentityStateView>,
    motion: Option<Motion>,
    limits: KinematicLimits,
) -> bool {
    memory matches Some(m) && motion matches Some(moved) && moved.distance_mm > accuracy_radius(
        m.last_position,
    ) + accuracy_radius(report.position) && moved.distance_mm * 1000
        > limits.max_plausible_speed * distance(
        report.timestamp as int,
        m.last_timestamp as int,
    )
}

/// The bearing changed by more than the threshold since the last measured
/// move, while the vehicle declares a high speed.
pub open spec fn erratic_movement(
    report: VehiclePosition,
    memory: Option<IdentityStateView>,
    motion: Option<Motion>,
    config: EvaluatorConfig,
) -> bool {
    memory matches Some(m) && m.last_bearing matches Some(before) && motion matches Some(moved)
        && report.velocity matches Some(v) && v.speed >= config.erratic_min_speed
        && bearing_change(before as int, moved.bearing as int) > config.erratic_bearing_change
}

/// The declared speed and the speed measured from the move, distance
/// divided by time, lie further apart than the tolerance.
pub open spec fn sensor_inconsistency(
    report: VehiclePosition,
    memory: Option<IdentityStateView>,
    motion: Option<Motion>,
    config: EvaluatorConfig,
) -> bool {
    memory matches Some(m) && motion matches Some(moved) && report.velocity matches Some(v) && {
        let time = distance(report.timestamp as int, m.last_timestamp as int);
        time > 0 && distance(v.speed * time, moved.distance_mm * 1000)
            > config.sensor_speed_tolerance * time
    }
}

/// The anomalies that a report raises, rule by rule. The rules on the move
/// since the last report need a memory that counts and a measured move; the
/// PKI and the guard hand their verdicts through. No rule raises a location
/// anomaly or a behavior change.
pub open spec fn detect(
    report: VehiclePosition,
    memory: Option<IdentityStateView>,
    context: EvaluationContext,
    guard: ReplayVerdict,
    config: EvaluatorConfig,
) -> AnomalySet {
    let limits = config.limits.of(declared_size(report));
    let motion = measured_motion(memory, context);
    AnomalySet {
        speed_violation: speed_violation(report, limits),
        rapid_acceleration: rapid_acceleration(report, limits),
        rapid_deceleration: rapid_deceleration(report, limits),
        erratic_movement: erratic_movement(report, memory, motion, config),
        position_jump: position_jump(report, memory, motion, limits),
        sensor_inconsistency: sensor_inconsistency(report, memory, motion, config),
        certificate_expired: !context.pki.certificate_valid,
        signature_invalid: !context.pki.signature_valid,
        replay_attempt: !guard.accepted(),
        frequency_violation: !guard.rate_limit_ok,
        location_anomaly: false,
        behavior_change: false,
    }
}

/// Measures the angle between two bearings.
pub fn bearing_change_between(a: u32, b: u32) -> (change: u32)
    ensures
        change == bearing_change(a as int, b as int),
        change <= HALF_TURN,
{
    let apart = distance_between((a % FULL_TURN) as u64, (b % FULL_TURN) as u64) as u32;
    if apart > HALF_TURN {
        FULL_TURN - apart
    } else {
        apart
    }
}

/// Takes the magnitude of a signed quantity.
pub fn magnitude_of(x: i32) -> (m: u32)
    ensures
        m == magnitude(x as int),
{
    if x < 0 {
        (-(x as i64)) as u32
    } else {
        x as u32
    }
}

/// Reads the accuracy radius of a position.
pub fn radius_of(position: &Position) -> (radius: u32)
    ensures
        radius == accuracy_radius(*position),
{
    match position.accuracy_horizontal {
        Some(radius) => radius,
        None => 0,
    }
}

/// Multiplies a rate by a time.
fn product(rate: u32, time: u64) -> (p: u128)
    ensures
        p == rate * time,
{
    assert(rate * time <= u32::MAX * u64::MAX) by (nonlinear_arith)
        requires
            0 <= rate <= u32::MAX,
            0 <= time <= u64::MAX,
    ;
    (rate as u128) * (time as u128)
}

/// Runs the rules of the classifier on one report.
pub fn classify(
    report: &VehiclePosition,
    memory: Option<&IdentityState>,
    context: &EvaluationContext,
    guard: &ReplayVerdict,
    config: &EvaluatorConfig,
) -> (raised: AnomalySet)
    ensures
        raised == detect(*report, view_of(memory), *context, *guard, *config),
{
    let size = match &report.metadata {
        Some(metadata) => Some(metadata.size),
        None => None,
    };
    let limits = config.limits.limits_for(size);
    let mut raised = AnomalySet::empty();
    raised.certificate_expired = !context.pki.certificate_valid;
    raised.signature_invalid = !context.pki.signature_valid;
    raised.replay_attempt = !guard.is_accepted();
    raised.frequency_violation = !guard.rate_limit_ok;
    match report.velocity {
        Some(v) => {
            raised.speed_violation = v.speed > limits.max_speed;
            raised.rapid_acceleration = match v.acceleration {
                Some(a) => magnitude_of(a) > limits.max_acceleration,
                None => false,
            };
            raised.rapid_deceleration = match v.deceleration {
                Some(d) => magnitude_of(d) > limits.max_deceleration,
                None => false,
            };
        },
        None => {},
    }
    match (memory, &context.motion) {
        (Some(m), Signal::Value(moved)) => {
            let time = distance_between(report.timestamp, m.last_timestamp);
            let reach: u128 = (moved.distance_mm as u128) * 1000;
            let radii: u64 = radius_of(&m.last_position) as u64 + radius_of(&report.position) as u64;
            raised.position_jump = moved.distance_mm > radii && reach > product(
                limits.max_plausible_speed,
                time,
            );
            match report.velocity {
                Some(v) => {
                    raised.erratic_movement = match m.last_bearing {
                        Some(before) => v.speed >= config.erratic_min_speed
                            && bearing_change_between(before, moved.bearing)
                            > config.erratic_bearing_change,
                        None => false,
                    };
                    let declared: u128 = product(v.speed, time);
                    let gap: u128 = if declared >= reach {
                        declared - reach
                    } else {
                        reach - declared
                    };
                    raised.sensor_inconsistency = time > 0 && gap > product(
                        config.sensor_speed_tolerance,
                        time,
                    );
                },
                None => {},
            }
        },
        _ => {},
    }
    raised
}

} // verus!
