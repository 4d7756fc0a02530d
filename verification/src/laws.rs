//! What holds of every evaluation, proved from the definitions of the guard,
//! the classifier and the aggregator.

use vstd::prelude::*;
use crate::anomaly::detect;
use crate::anomaly::lemma_list_is_the_set;
use crate::anomaly::lemma_part_of_whole;
use crate::anomaly::AnomalySet;
use crate::model::CATEGORIES;
use crate::context::EvaluationContext;
use crate::evaluator::outcome;
use crate::evaluator::sub_scores;
use crate::evaluator::EvaluationView;
use crate::model::AnomalyType;
use crate::model::VehiclePosition;
use crate::model::SCORE_ONE;
use crate::policy::AnomalyWeights;
use crate::policy::EvaluatorConfig;
use crate::replay::count_of;
use crate::replay::elapsed;
use crate::replay::guard_state;
use crate::replay::is_recent;
use crate::replay::lemma_recent_keeps_recent;
use crate::replay::live;
use crate::replay::verdict;
use crate::replay::GuardState;
use crate::replay::IdentityStateView;
use crate::trust::lemma_overall_depends_on_proportions;
use crate::trust::lemma_overall_in_range;
use crate::trust::lemma_scores_in_range;

verus! {

/// The categories of a set never weigh more than all categories together.
pub proof fn lemma_weight_within_total(set: AnomalySet, weights: AnomalyWeights, n: int)
    requires
        0 <= n <= CATEGORIES,
    ensures
        0 <= set.weight_of_first(weights, n) <= weights.total_of_first(n),
    decreases n,
{
    if n > 0 {
        lemma_weight_within_total(set, weights, n - 1);
    }
}

/// The anomaly score of any set of categories lies between 0 and 1,
/// whatever the weights.
pub proof fn lemma_anomaly_score_in_range(set: AnomalySet, weights: AnomalyWeights)
    ensures
        0 <= set.score(weights) <= SCORE_ONE,
{
    lemma_weight_within_total(set, weights, CATEGORIES as int);
    if weights.total() != 0 {
        lemma_part_of_whole(set.weight(weights), weights.total());
    }
}

/// Every score of every evaluation lies between 0 and 1: the five
/// sub-scores, the overall score and the anomaly score. The threat level
/// lies between 0 and 10. This holds of every report, memory, context and
/// policy.
pub proof fn lemma_every_score_in_range(
    config: EvaluatorConfig,
    report: VehiclePosition,
    state: Option<IdentityStateView>,
    context: EvaluationContext,
)
    ensures
        outcome(config, report, state, context).metrics.overall_score <= SCORE_ONE,
        outcome(config, report, state, context).metrics.behavior_score <= SCORE_ONE,
        outcome(config, report, state, context).metrics.certificate_score <= SCORE_ONE,
        outcome(config, report, state, context).metrics.history_score <= SCORE_ONE,
        outcome(config, report, state, context).metrics.proximity_score <= SCORE_ONE,
        outcome(config, report, state, context).metrics.sensor_score <= SCORE_ONE,
        outcome(config, report, state, context).metrics.anomaly_score <= SCORE_ONE,
        outcome(config, report, state, context).flags.threat_level <= 10,
{
    let memory = live(state, context.now as int, config.rotation_interval_ms as int);
    let guard = verdict(
        report.sequence as int,
        report.epoch as int,
        report.timestamp as int,
        memory,
        context.now as int,
        context.current_epoch as int,
        config,
    );
    let raised = detect(report, memory, context, guard, config);
    let anomaly_score = raised.score(config.anomaly_weights);
    let next = outcome(config, report, state, context).state;
    let inconsistencies = count_of(next.anomaly_window, AnomalyType::SensorInconsistency) as int;
    lemma_anomaly_score_in_range(raised, config.anomaly_weights);
    lemma_scores_in_range(
        anomaly_score,
        context.pki,
        context.now as int,
        config.cert_expiry_warning_ms as int,
        context.lineage,
        context.proximity,
        config.proximity_trust_threshold,
        inconsistencies,
        config.sensor_inconsistency_limit as int,
        guard.not_replay,
    );
    let scores = sub_scores(anomaly_score, inconsistencies, context, config);
    lemma_overall_in_range(scores, config.trust_weights);
}

/// The overall score depends on the proportions of the trust weights and not
/// on their sum: a policy whose weights sum to 0.8 yields the overall score
/// of the policy with the same weights multiplied by 1.25.
pub proof fn lemma_trust_weights_are_rescaled(
    config: EvaluatorConfig,
    rescaled: EvaluatorConfig,
    report: VehiclePosition,
    state: Option<IdentityStateView>,
    context: EvaluationContext,
    a: int,
    b: int,
)
    requires
        rescaled == (EvaluatorConfig { trust_weights: rescaled.trust_weights, ..config }),
        a > 0,
        b > 0,
        a * config.trust_weights.behavior == b * rescaled.trust_weights.behavior,
        a * config.trust_weights.certificate == b * rescaled.trust_weights.certificate,
        a * config.trust_weights.history == b * rescaled.trust_weights.history,
        a * config.trust_weights.proximity == b * rescaled.trust_weights.proximity,
        a * config.trust_weights.sensor == b * rescaled.trust_weights.sensor,
    ensures
        outcome(rescaled, report, state, context).metrics.overall_score == outcome(
            config,
            report,
            state,
            context,
        ).metrics.overall_score,
        outcome(rescaled, report, state, context).flags == outcome(
            config,
            report,
            state,
            context,
        ).flags,
        outcome(rescaled, report, state, context).state == outcome(
            config,
            report,
            state,
            context,
        ).state,
{
    let memory = live(state, context.now as int, config.rotation_interval_ms as int);
    let guard = verdict(
        report.sequence as int,
        report.epoch as int,
        report.timestamp as int,
        memory,
        context.now as int,
        context.current_epoch as int,
        config,
    );
    let raised = detect(report, memory, context, guard, config);
    let next = outcome(config, report, state, context).state;
    let scores = sub_scores(
        raised.score(config.anomaly_weights),
        count_of(next.anomaly_window, AnomalyType::SensorInconsistency) as int,
        context,
        config,
    );
    lemma_overall_depends_on_proportions(
        scores,
        config.trust_weights,
        rescaled.trust_weights,
        a,
        b,
    );
}

/// A report of an active identity that repeats a sequence number of its
/// epoch, or falls behind it, is a replay: the flag says so, a replay
/// attempt is recorded among the anomalies, and the memory keeps the
/// sequence number it had.
pub proof fn lemma_repeated_sequence_is_replay(
    config: EvaluatorConfig,
    report: VehiclePosition,
    memory: IdentityStateView,
    context: EvaluationContext,
)
    requires
        guard_state(Some(memory), context.now as int, config.rotation_interval_ms as int)
            == GuardState::Active,
        report.epoch == memory.last_epoch,
        report.sequence <= memory.last_sequence,
    ensures
        !outcome(config, report, Some(memory), context).flags.not_replay,
        outcome(config, report, Some(memory), context).metrics.anomalies.contains(
            AnomalyType::ReplayAttempt,
        ),
        outcome(config, report, Some(memory), context).state.last_sequence
            == memory.last_sequence,
        outcome(config, report, Some(memory), context).state.last_epoch == memory.last_epoch,
{
    let live_memory = live(Some(memory), context.now as int, config.rotation_interval_ms as int);
    let guard = verdict(
        report.sequence as int,
        report.epoch as int,
        report.timestamp as int,
        live_memory,
        context.now as int,
        context.current_epoch as int,
        config,
    );
    let raised = detect(report, live_memory, context, guard, config);
    lemma_list_is_the_set(raised);
    assert(raised.contains(AnomalyType::ReplayAttempt));
}

/// A report of an active identity that moves the sequence number forward
/// within the epoch is no replay.
pub proof fn lemma_next_sequence_is_no_replay(
    config: EvaluatorConfig,
    report: VehiclePosition,
    memory: IdentityStateView,
    context: EvaluationContext,
)
    requires
        report.epoch == memory.last_epoch,
        report.sequence > memory.last_sequence,
    ensures
        outcome(config, report, Some(memory), context).flags.not_replay,
{
}

/// A report of a later epoch is no replay, however small its sequence
/// number: with a new epoch the sequence starts anew.
pub proof fn lemma_epoch_rotation_is_no_replay(
    config: EvaluatorConfig,
    report: VehiclePosition,
    memory: IdentityStateView,
    context: EvaluationContext,
)
    requires
        report.epoch > memory.last_epoch,
    ensures
        outcome(config, report, Some(memory), context).flags.not_replay,
{
}

/// An evaluation is a function of the report, the memory, the context and
/// the policy: evaluated twice against the same memory, a report yields the
/// same flags, the same metrics and the same next memory.
pub proof fn lemma_evaluation_is_repeatable(
    config: EvaluatorConfig,
    report: VehiclePosition,
    state: Option<IdentityStateView>,
    context: EvaluationContext,
    first: EvaluationView,
    second: EvaluationView,
)
    requires
        first == outcome(config, report, state, context),
        second == outcome(config, report, state, context),
    ensures
        first.flags == second.flags,
        first.metrics == second.metrics,
        first.state == second.state,
{
}

/// An identity that was silent for longer than the rotation interval is
/// stale, and its next report is evaluated as the first report of an unseen
/// identity: nothing of the old memory enters the evaluation, and the
/// report is no replay, whatever its sequence number.
pub proof fn lemma_stale_identity_is_unseen(
    config: EvaluatorConfig,
    report: VehiclePosition,
    memory: IdentityStateView,
    context: EvaluationContext,
)
    requires
        elapsed(context.now as int, memory.last_access as int) > config.rotation_interval_ms,
    ensures
        guard_state(Some(memory), context.now as int, config.rotation_interval_ms as int)
            == GuardState::Stale,
        outcome(config, report, Some(memory), context) == outcome(config, report, None, context),
        outcome(config, report, Some(memory), context).flags.not_replay,
        outcome(config, report, Some(memory), context).state.last_sequence == report.sequence,
{
}

/// After an evaluation the identity is active: an unseen or stale identity
/// becomes active with its first report, and an active one stays active.
pub proof fn lemma_evaluation_activates(
    config: EvaluatorConfig,
    report: VehiclePosition,
    state: Option<IdentityStateView>,
    context: EvaluationContext,
)
    ensures
        guard_state(
            Some(outcome(config, report, state, context).state),
            context.now as int,
            config.rotation_interval_ms as int,
        ) == GuardState::Active,
        outcome(config, report, state, context).state.last_access == context.now,
{
}

/// The memory of an active identity only moves forward: its epoch never
/// falls, and within one epoch its sequence number never falls.
pub proof fn lemma_memory_moves_forward(
    config: EvaluatorConfig,
    report: VehiclePosition,
    memory: IdentityStateView,
    context: EvaluationContext,
)
    requires
        guard_state(Some(memory), context.now as int, config.rotation_interval_ms as int)
            == GuardState::Active,
    ensures
        outcome(config, report, Some(memory), context).state.last_epoch >= memory.last_epoch,
        outcome(config, report, Some(memory), context).state.last_epoch == memory.last_epoch
            ==> outcome(config, report, Some(memory), context).state.last_sequence
            >= memory.last_sequence,
{
}

/// The rolling window of the next memory holds the anomalies of the last 24
/// hours and no older one.
pub proof fn lemma_window_holds_a_day(
    config: EvaluatorConfig,
    report: VehiclePosition,
    state: Option<IdentityStateView>,
    context: EvaluationContext,
)
    ensures
        forall|i: int|
            0 <= i < outcome(config, report, state, context).state.anomaly_window.len()
                ==> is_recent(
                #[trigger] outcome(config, report, state, context).state.anomaly_window[i],
                context.now as int,
            ),
{
    let memory = live(state, context.now as int, config.rotation_interval_ms as int);
    match memory {
        Some(m) => {
            lemma_recent_keeps_recent(m.anomaly_window, context.now as int);
        },
        None => {},
    }
}

/// Every anomaly that the classifier raises is recorded in the metrics, and
/// nothing else is.
pub proof fn lemma_raised_is_recorded(
    config: EvaluatorConfig,
    report: VehiclePosition,
    state: Option<IdentityStateView>,
    context: EvaluationContext,
    kind: AnomalyType,
)
    ensures
        outcome(config, report, state, context).metrics.anomalies.contains(kind) <==> detect(
            report,
            live(state, context.now as int, config.rotation_interval_ms as int),
            context,
            verdict(
                report.sequence as int,
                report.epoch as int,
                report.timestamp as int,
                live(state, context.now as int, config.rotation_interval_ms as int),
                context.now as int,
                context.current_epoch as int,
                config,
            ),
            config,
        ).contains(kind),
{
    let memory = live(state, context.now as int, config.rotation_interval_ms as int);
    let guard = verdict(
        report.sequence as int,
        report.epoch as int,
        report.timestamp as int,
        memory,
        context.now as int,
        context.current_epoch as int,
        config,
    );
    lemma_list_is_the_set(detect(report, memory, context, guard, config));
}

} // verus!
