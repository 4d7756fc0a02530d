//! The security evaluator: guard, classifier and aggregator run in a row on
//! one report.
//!
//! An evaluation reads the report, the memory of the identity and the
//! context, and nothing else: no clock, no random source, no shared state.
//! It changes nothing either. What follows from it, the flags, the metrics
//! and the identity's next memory, is handed back as a new value.

use vstd::prelude::*;
use vstd::string::StringExecFns;
use crate::model::category_name;
use crate::anomaly::classify;
use crate::anomaly::detect;
use crate::anomaly::measured_motion;
use crate::model::name_of;
use crate::anomaly::AnomalySet;
use crate::config::ConfigError;
use crate::context::EvaluationContext;
use crate::context::Signal;
use crate::model::AnomalyType;
use crate::model::SecurityFlags;
use crate::model::SecurityWarning;
use crate::model::Timestamp;
use crate::model::TrustFactor;
use crate::model::TrustMetrics;
use crate::model::TrustScore;
use crate::model::VehiclePosition;
use crate::policy::EvaluatorConfig;
use crate::policy::TrustWeights;
use crate::replay::advance;
use crate::replay::check_report;
use crate::replay::count_kind;
use crate::replay::count_of;
use crate::replay::live;
use crate::replay::live_state;
use crate::replay::next_state;
use crate::replay::verdict;
use crate::replay::view_of;
use crate::replay::IdentityState;
use crate::replay::IdentityStateView;
use crate::replay::ReplayVerdict;
use crate::traits::MalformedInput;
use crate::trust::behavior_score;
use crate::trust::certificate_score;
use crate::trust::compute_threat_level;
use crate::trust::history_score;
use crate::trust::is_near_expiry;
use crate::trust::least;
use crate::trust::near_expiry;
use crate::trust::proximity_score;
use crate::trust::score_behavior;
use crate::trust::score_certificate;
use crate::trust::score_history;
use crate::trust::score_overall;
use crate::trust::score_proximity;
use crate::trust::score_sensor;
use crate::trust::sensor_score;
use crate::trust::threat_level;
use crate::trust::SubScores;

verus! {

/// A `TrustFactor` as a mathematical value.
pub struct TrustFactorView {
    pub name: Seq<char>,
    pub weight: u32,
    pub score: TrustScore,
    pub description: Seq<char>,
    pub last_calculation: u64,
}

impl View for TrustFactor {
    type V = TrustFactorView;

    open spec fn view(&self) -> TrustFactorView {
        TrustFactorView {
            name: self.name@,
            weight: self.weight,
            score: self.score,
            description: self.description@,
            last_calculation: self.last_calculation,
        }
    }
}

/// A `TrustMetrics` as a mathematical value.
pub struct TrustMetricsView {
    pub overall_score: TrustScore,
    pub behavior_score: TrustScore,
    pub certificate_score: TrustScore,
    pub history_score: TrustScore,
    pub proximity_score: TrustScore,
    pub sensor_score: TrustScore,
    pub factors: Seq<TrustFactorView>,
    pub flags: Seq<Seq<char>>,
    pub last_update: u64,
    pub next_update: u64,
    pub anomaly_score: u32,
    pub anomalies: Seq<AnomalyType>,
    pub anomaly_count: u32,
}

impl View for TrustMetrics {
    type V = TrustMetricsView;

    open spec fn view(&self) -> TrustMetricsView {
        TrustMetricsView {
            overall_score: self.overall_score,
            behavior_score: self.behavior_score,
            certificate_score: self.certificate_score,
            history_score: self.history_score,
            proximity_score: self.proximity_score,
            sensor_score: self.sensor_score,
            factors: Seq::new(self.factors@.len(), |i: int| self.factors@[i]@),
            flags: Seq::new(self.flags@.len(), |i: int| self.flags@[i]@),
            last_update: self.last_update,
            next_update: self.next_update,
            anomaly_score: self.anomaly_score,
            anomalies: self.anomalies@,
            anomaly_count: self.anomaly_count,
        }
    }
}

/// A `SecurityFlags` as a mathematical value.
pub struct SecurityFlagsView {
    pub certificate_valid: bool,
    pub signature_valid: bool,
    pub not_replay: bool,
    pub rate_limit_ok: bool,
    pub location_plausible: bool,
    pub timestamp_fresh: bool,
    pub pseudonym_valid: bool,
    pub warnings: Seq<SecurityWarning>,
    pub threat_level: u32,
    pub threat_description: Seq<char>,
}

impl View for SecurityFlags {
    type V = SecurityFlagsView;

    open spec fn view(&self) -> SecurityFlagsView {
        SecurityFlagsView {
            certificate_valid: self.certificate_valid,
            signature_valid: self.signature_valid,
            not_replay: self.not_replay,
            rate_limit_ok: self.rate_limit_ok,
            location_plausible: self.location_plausible,
            timestamp_fresh: self.timestamp_fresh,
            pseudonym_valid: self.pseudonym_valid,
            warnings: self.warnings@,
            threat_level: self.threat_level,
            threat_description: self.threat_description@,
        }
    }
}

/// What an evaluation hands back.
#[derive(Debug, Clone)]
pub struct Evaluation {
    /// The checks that the report passed and failed.
    pub flags: SecurityFlags,
    /// The scores and the evidence for them.
    pub metrics: TrustMetrics,
    /// The memory of the identity from here on.
    pub state: IdentityState,
}

/// An `Evaluation` as a mathematical value.
pub struct EvaluationView {
    pub flags: SecurityFlagsView,
    pub metrics: TrustMetricsView,
    pub state: IdentityStateView,
}

impl View for Evaluation {
    type V = EvaluationView;

    open spec fn view(&self) -> EvaluationView {
        EvaluationView { flags: self.flags@, metrics: self.metrics@, state: self.state@ }
    }
}

/// The list `list`, with `item` at its end where `wanted` holds.
pub open spec fn with<T>(list: Seq<T>, wanted: bool, item: T) -> Seq<T> {
    if wanted {
        list.push(item)
    } else {
        list
    }
}

/// The bearing that the next memory keeps: that of the measured move, and
/// without one the bearing that was remembered.
pub open spec fn carried_bearing(
    memory: Option<IdentityStateView>,
    context: EvaluationContext,
) -> Option<u32> {
    match measured_motion(memory, context) {
        Some(moved) => Some(moved.bearing),
        None => match memory {
            Some(m) => m.last_bearing,
            None => None,
        },
    }
}

/// The five sub-scores of an evaluation with the anomaly score
/// `anomaly_score` that leaves `inconsistencies` sensor inconsistencies in
/// the rolling window.
pub open spec fn sub_scores(
    anomaly_score: int,
    inconsistencies: int,
    context: EvaluationContext,
    config: EvaluatorConfig,
) -> SubScores {
    SubScores {
        behavior: behavior_score(anomaly_score) as u32,
        certificate: certificate_score(
            context.pki,
            context.now as int,
            config.cert_expiry_warning_ms as int,
        ) as u32,
        history: history_score(context.lineage) as u32,
        proximity: proximity_score(context.proximity, config.proximity_trust_threshold) as u32,
        sensor: sensor_score(inconsistencies, config.sensor_inconsistency_limit as int) as u32,
    }
}

/// The record of one factor of the overall score.
pub open spec fn factor(
    name: Seq<char>,
    weight: u32,
    score: TrustScore,
    description: Seq<char>,
    now: Timestamp,
) -> TrustFactorView {
    TrustFactorView { name, weight, score, description, last_calculation: now }
}

/// The records of the five factors, in the order behavior, certificate,
/// history, proximity, sensor: each with its configured weight, its score
/// and the instant of the evaluation.
pub open spec fn factors(scores: SubScores, weights: TrustWeights, now: Timestamp) -> Seq<
    TrustFactorView,
> {
    seq![
        factor(
            "behavior"@,
            weights.behavior,
            scores.behavior,
            "What the anomaly score leaves of 1"@,
            now,
        ),
        factor(
            "certificate"@,
            weights.certificate,
            scores.certificate,
            "Validity of the certificate and the signature"@,
            now,
        ),
        factor(
            "history"@,
            weights.history,
            scores.history,
            "Moving average of the lineage's overall scores"@,
            now,
        ),
        factor(
            "proximity"@,
            weights.proximity,
            scores.proximity,
            "Part of the nearby vehicles that is trusted"@,
            now,
        ),
        factor(
            "sensor"@,
            weights.sensor,
            scores.sensor,
            "What the sensor inconsistencies of 24 hours leave of 1"@,
            now,
        ),
    ]
}

/// Whether no neighbor is known: the proximity signal is not at hand, or it
/// lists nobody.
pub open spec fn proximity_unknown(context: EvaluationContext) -> bool {
    match context.proximity {
        Signal::Value(neighbors) => neighbors@.len() == 0,
        Signal::Unavailable => true,
    }
}

/// The flags of the metrics: one for each signal that a neutral default
/// stood in for.
pub open spec fn substitutions(context: EvaluationContext) -> Seq<Seq<char>> {
    let lineage = with(
        Seq::<Seq<char>>::empty(),
        context.lineage is Unavailable,
        "lineage_unavailable"@,
    );
    with(lineage, proximity_unknown(context), "proximity_unavailable"@)
}

/// The warnings that go with the raised anomalies, in the order in which
/// `SecurityWarning` declares them.
pub open spec fn warnings(raised: AnomalySet, expiring: bool) -> Seq<SecurityWarning> {
    let w1 = with(Seq::<SecurityWarning>::empty(), expiring, SecurityWarning::CertificateExpiring);
    let w2 = with(w1, raised.frequency_violation, SecurityWarning::HighMessageRate);
    let w3 = with(w2, raised.position_jump, SecurityWarning::SuspiciousLocation);
    let w4 = with(
        w3,
        raised.speed_violation || raised.rapid_acceleration || raised.rapid_deceleration
            || raised.erratic_movement,
        SecurityWarning::BehaviorAnomaly,
    );
    let w5 = with(
        w4,
        raised.certificate_expired || raised.signature_invalid,
        SecurityWarning::AuthenticationFailure,
    );
    with(w5, raised.sensor_inconsistency, SecurityWarning::DataIntegrityIssue)
}

/// The names of the raised anomalies, separated by a comma and a space.
pub open spec fn threat_text(raised: Seq<AnomalyType>) -> Seq<char>
    decreases raised.len(),
{
    if raised.len() == 0 {
        Seq::empty()
    } else if raised.len() == 1 {
        category_name(raised[0])
    } else {
        threat_text(raised.drop_last()) + ", "@ + category_name(raised.last())
    }
}

/// The instant `now` moved on by `interval`, and the last instant that can
/// be written where that lies beyond it.
pub open spec fn later(now: Timestamp, interval: u64) -> u64 {
    least(now + interval, u64::MAX as int) as u64
}

/// The flags of an evaluation.
pub open spec fn flags_of(
    guard: ReplayVerdict,
    raised: AnomalySet,
    anomaly_score: int,
    context: EvaluationContext,
    config: EvaluatorConfig,
) -> SecurityFlagsView {
    SecurityFlagsView {
        certificate_valid: context.pki.certificate_valid,
        signature_valid: context.pki.signature_valid,
        not_replay: guard.not_replay,
        rate_limit_ok: guard.rate_limit_ok,
        location_plausible: !raised.position_jump,
        timestamp_fresh: guard.timestamp_fresh,
        pseudonym_valid: guard.pseudonym_valid,
        warnings: warnings(
            raised,
            context.pki.certificate_valid && context.pki.signature_valid && near_expiry(
                context.pki,
                context.now as int,
                config.cert_expiry_warning_ms as int,
            ),
        ),
        threat_level: threat_level(anomaly_score, guard.not_replay, context.pki.signature_valid)
            as u32,
        threat_description: threat_text(raised.to_seq()),
    }
}

/// The metrics of an evaluation.
pub open spec fn metrics_of(
    raised: AnomalySet,
    anomaly_score: int,
    next: IdentityStateView,
    context: EvaluationContext,
    config: EvaluatorConfig,
) -> TrustMetricsView {
    let scores = sub_scores(
        anomaly_score,
        count_of(next.anomaly_window, AnomalyType::SensorInconsistency) as int,
        context,
        config,
    );
    TrustMetricsView {
        overall_score: scores.overall(config.trust_weights) as u32,
        behavior_score: scores.behavior,
        certificate_score: scores.certificate,
        history_score: scores.history,
        proximity_score: scores.proximity,
        sensor_score: scores.sensor,
        factors: factors(scores, config.trust_weights, context.now),
        flags: substitutions(context),
        last_update: context.now,
        next_update: later(context.now, config.rotation_interval_ms),
        anomaly_score: anomaly_score as u32,
        anomalies: raised.to_seq(),
        anomaly_count: least(next.anomaly_window.len() as int, u32::MAX as int) as u32,
    }
}

/// What the evaluation of a well-formed report yields. The guard judges the
/// report against the memory that counts; the classifier raises anomalies
/// from the report, that memory and the guard's verdict; the aggregator
/// scores what was raised together with the context.
pub open spec fn outcome(
    config: EvaluatorConfig,
    report: VehiclePosition,
    state: Option<IdentityStateView>,
    context: EvaluationContext,
) -> EvaluationView {
    let memory = live(state, context.now as int, config.rotation_interval_ms as int);
    let guard = verdict(
        report.sequence as int,
        report.epoch as int,
        report.timestamp as int,
        memory,
        context.now as int,
        context.current_epoch as int,
        config,
    );
    let raised = detect(report, memory, context, guard, config);
    let anomaly_score = raised.score(config.anomaly_weights);
    let next = next_state(
        report.sequence,
        report.epoch,
        report.position,
        report.timestamp,
        carried_bearing(memory, context),
        memory,
        guard.accepted(),
        raised.to_seq(),
        context.now,
    );
    EvaluationView {
        flags: flags_of(guard, raised, anomaly_score, context, config),
        metrics: metrics_of(raised, anomaly_score, next, context, config),
        state: next,
    }
}

/// Makes the record of one factor.
fn make_factor(name: &str, weight: u32, score: TrustScore, description: &str, now: Timestamp) -> (f:
    TrustFactor)
    ensures
        f@ == factor(name@, weight, score, description@, now),
{
    TrustFactor {
        name: String::from_str(name),
        weight,
        score,
        description: String::from_str(description),
        last_calculation: now,
    }
}

/// Makes the records of the five factors.
pub fn list_factors(scores: &SubScores, weights: &TrustWeights, now: Timestamp) -> (list: Vec<
    TrustFactor,
>)
    ensures
        Seq::new(list@.len(), |i: int| list@[i]@) == factors(*scores, *weights, now),
{
    let mut list: Vec<TrustFactor> = Vec::new();
    list.push(
        make_factor(
            "behavior",
            weights.behavior,
            scores.behavior,
            "What the anomaly score leaves of 1",
            now,
        ),
    );
    list.push(
        make_factor(
            "certificate",
            weights.certificate,
            scores.certificate,
            "Validity of the certificate and the signature",
            now,
        ),
    );
    list.push(
        make_factor(
            "history",
            weights.history,
            scores.history,
            "Moving average of the lineage's overall scores",
            now,
        ),
    );
    list.push(
        make_factor(
            "proximity",
            weights.proximity,
            scores.proximity,
            "Part of the nearby vehicles that is trusted",
            now,
        ),
    );
    list.push(
        make_factor(
            "sensor",
            weights.sensor,
            scores.sensor,
            "What the sensor inconsistencies of 24 hours leave of 1",
            now,
        ),
    );
    assert(Seq::new(list@.len(), |i: int| list@[i]@) =~= factors(*scores, *weights, now));
    list
}

/// Lists the signals that a neutral default stood in for.
pub fn list_substitutions(context: &EvaluationContext) -> (list: Vec<String>)
    ensures
        Seq::new(list@.len(), |i: int| list@[i]@) == substitutions(*context),
{
    let mut list: Vec<String> = Vec::new();
    match &context.lineage {
        Signal::Unavailable => {
            list.push(String::from_str("lineage_unavailable"));
        },
        Signal::Value(_) => {},
    }
    let unknown = match &context.proximity {
        Signal::Value(neighbors) => neighbors.len() == 0,
        Signal::Unavailable => true,
    };
    if unknown {
        list.push(String::from_str("proximity_unavailable"));
    }
    assert(Seq::new(list@.len(), |i: int| list@[i]@) =~= substitutions(*context));
    list
}

/// Lists the warnings that go with the raised anomalies.
pub fn list_warnings(raised: &AnomalySet, expiring: bool) -> (list: Vec<SecurityWarning>)
    ensures
        list@ == warnings(*raised, expiring),
{
    let mut list: Vec<SecurityWarning> = Vec::new();
    if expiring {
        list.push(SecurityWarning::CertificateExpiring);
    }
    if raised.frequency_violation {
        list.push(SecurityWarning::HighMessageRate);
    }
    if raised.position_jump {
        list.push(SecurityWarning::SuspiciousLocation);
    }
    if raised.speed_violation || raised.rapid_acceleration || raised.rapid_deceleration
        || raised.erratic_movement {
        list.push(SecurityWarning::BehaviorAnomaly);
    }
    if raised.certificate_expired || raised.signature_invalid {
        list.push(SecurityWarning::AuthenticationFailure);
    }
    if raised.sensor_inconsistency {
        list.push(SecurityWarning::DataIntegrityIssue);
    }
    list
}

/// Writes the names of the raised anomalies, separated by a comma and a
/// space.
pub fn describe_threats(raised: &Vec<AnomalyType>) -> (text: String)
    ensures
        text@ == threat_text(raised@),
{
    let mut text = String::new();
    let mut i: usize = 0;
    while i < raised.len()
        invariant
            i <= raised.len(),
            text@ == threat_text(raised@.take(i as int)),
        decreases raised.len() - i,
    {
        proof {
            let next = raised@.take(i + 1);
            assert(next.drop_last() == raised@.take(i as int));
            assert(next.last() == raised@[i as int]);
            assert(next[0] == raised@[0]);
        }
        if i > 0 {
            text.append(", ");
        }
        text.append(name_of(raised[i]));
        assert(text@ == threat_text(raised@.take(i + 1)));
        i = i + 1;
    }
    assert(raised@.take(i as int) == raised@);
    text
}

/// The security evaluator: a policy that was checked when the evaluator
/// was made, and the pipeline that runs reports against it.
pub struct SecurityEvaluator {
    config: EvaluatorConfig,
}

impl SecurityEvaluator {
    #[verifier::type_invariant]
    spec fn well_formed(self) -> bool {
        self.config.is_valid()
    }

    /// The policy of the evaluator.
    pub closed spec fn policy(&self) -> EvaluatorConfig {
        self.config
    }

    /// Makes an evaluator for a policy, or reports the first rule that the
    /// policy breaks.
    pub fn new(config: EvaluatorConfig) -> (r: Result<SecurityEvaluator, ConfigError>)
        ensures
            match r {
                Ok(evaluator) => config.is_valid() && evaluator.policy() == config,
                Err(ConfigError::ValidationError(message)) => config.first_violation() == Some(
                    message@,
                ),
                Err(ConfigError::LoadError(_)) => false,
            },
    {
        match config.validate() {
            Ok(()) => Ok(SecurityEvaluator { config }),
            Err(e) => Err(e),
        }
    }

    /// Reads the policy of the evaluator, which keeps every rule.
    pub fn config(&self) -> (config: &EvaluatorConfig)
        ensures
            *config == self.policy(),
            config.is_valid(),
    {
        proof {
            use_type_invariant(self);
        }
        &self.config
    }

    /// Evaluates one report of an identity whose memory is `state`, or
    /// `None` for an identity without memory. A malformed report is turned
    /// away with its first defect, untouched and unjudged; every other
    /// report is evaluated, whatever the guard and the classifier find.
    pub fn evaluate(
        &self,
        report: &VehiclePosition,
        state: Option<&IdentityState>,
        context: &EvaluationContext,
    ) -> (r: Result<Evaluation, MalformedInput>)
        ensures
            match r {
                Ok(evaluation) => report.malformation() is None && evaluation@ == outcome(
                    self.policy(),
                    *report,
                    view_of(state),
                    *context,
                ),
                Err(defect) => report.malformation() == Some(defect),
            },
    {
        match report.check_well_formed() {
            Err(defect) => Err(defect),
            Ok(()) => Ok(run(&self.config, report, state, context)),
        }
    }
}

/// Runs guard, classifier and aggregator on a report that is well formed.
pub fn run(
    config: &EvaluatorConfig,
    report: &VehiclePosition,
    state: Option<&IdentityState>,
    context: &EvaluationContext,
) -> (evaluation: Evaluation)
    ensures
        evaluation@ == outcome(*config, *report, view_of(state), *context),
{
    let now = context.now;
    let memory = live_state(state, now, config.rotation_interval_ms);
    let guard = check_report(
        report.sequence,
        report.epoch,
        report.timestamp,
        memory,
        now,
        context.current_epoch,
        config,
    );
    let raised = classify(report, memory, context, &guard, config);
    let anomalies = raised.to_vec();
    let anomaly_score = raised.anomaly_score(&config.anomaly_weights);
    let bearing = match (memory, &context.motion) {
        (Some(_), Signal::Value(moved)) => Some(moved.bearing),
        (Some(m), Signal::Unavailable) => m.last_bearing,
        (None, _) => None,
    };
    let next = advance(
        report.sequence,
        report.epoch,
        report.position,
        report.timestamp,
        bearing,
        memory,
        guard.is_accepted(),
        &anomalies,
        now,
    );
    let inconsistencies = count_kind(&next.anomaly_window, AnomalyType::SensorInconsistency);
    let scores = SubScores {
        behavior: score_behavior(anomaly_score),
        certificate: score_certificate(&context.pki, now, config.cert_expiry_warning_ms),
        history: score_history(&context.lineage),
        proximity: score_proximity(&context.proximity, config.proximity_trust_threshold),
        sensor: score_sensor(inconsistencies, config.sensor_inconsistency_limit),
    };
    let overall = score_overall(&scores, &config.trust_weights);
    let anomaly_count: u32 = if next.anomaly_window.len() > u32::MAX as usize {
        u32::MAX
    } else {
        next.anomaly_window.len() as u32
    };
    let next_update: u64 = match now.checked_add(config.rotation_interval_ms) {
        Some(due) => due,
        None => u64::MAX,
    };
    let expiring = context.pki.certificate_valid && context.pki.signature_valid && is_near_expiry(
        &context.pki,
        now,
        config.cert_expiry_warning_ms,
    );
    let flags = SecurityFlags {
        certificate_valid: context.pki.certificate_valid,
        signature_valid: context.pki.signature_valid,
        not_replay: guard.not_replay,
        rate_limit_ok: guard.rate_limit_ok,
        location_plausible: !raised.position_jump,
        timestamp_fresh: guard.timestamp_fresh,
        pseudonym_valid: guard.pseudonym_valid,
        warnings: list_warnings(&raised, expiring),
        threat_level: compute_threat_level(
            anomaly_score,
            guard.not_replay,
            context.pki.signature_valid,
        ),
        threat_description: describe_threats(&anomalies),
    };
    let metrics = TrustMetrics {
        overall_score: overall,
        behavior_score: scores.behavior,
        certificate_score: scores.certificate,
        history_score: scores.history,
        proximity_score: scores.proximity,
        sensor_score: scores.sensor,
        factors: list_factors(&scores, &config.trust_weights, now),
        flags: list_substitutions(context),
        last_update: now,
        next_update,
        anomaly_score,
        anomalies,
        anomaly_count,
    };
    Evaluation { flags, metrics, state: next }
}

} // verus!
