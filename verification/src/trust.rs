//! The trust aggregator: five sub-scores, each between 0 and 1, and the
//! overall score that weighs them.

use vstd::prelude::*;
use crate::anomaly::lemma_part_of_whole;
use crate::context::Neighbor;
use crate::context::PkiVerdict;
use crate::context::Signal;
use crate::model::AnomalyScore;
use crate::model::Timestamp;
use crate::model::TrustScore;
use crate::model::SCORE_NEUTRAL;
use crate::model::SCORE_ONE;
use crate::policy::TrustWeights;
use crate::utils::lemma_average_bounded;
use crate::utils::lemma_sums_bounded;
use crate::utils::weight_sum;
use crate::utils::weighted_average;
use crate::utils::weighted_sum;
use crate::utils::weighted_trust_average;

verus! {

/// The five sub-scores of one evaluation.
#[derive(Debug, Clone, Copy, PartialEq, Eq, Structural)]
pub struct SubScores {
    pub behavior: TrustScore,
    pub certificate: TrustScore,
    pub history: TrustScore,
    pub proximity: TrustScore,
    pub sensor: TrustScore,
}

impl SubScores {
    /// Whether every sub-score lies between 0 and 1.
    pub open spec fn in_range(&self) -> bool {
        &&& self.behavior <= SCORE_ONE
        &&& self.certificate <= SCORE_ONE
        &&& self.history <= SCORE_ONE
        &&& self.proximity <= SCORE_ONE
        &&& self.sensor <= SCORE_ONE
    }

    /// The sub-scores with their weights, in the order behavior,
    /// certificate, history, proximity, sensor.
    pub open spec fn weighted(&self, weights: TrustWeights) -> Seq<(u32, u32)> {
        seq![
            (self.behavior, weights.behavior),
            (self.certificate, weights.certificate),
            (self.history, weights.history),
            (self.proximity, weights.proximity),
            (self.sensor, weights.sensor),
        ]
    }

    /// The overall score: the average of the sub-scores by their weights,
    /// rounded down. Only the proportions of the weights count: weights that
    /// do not sum to 1 weigh as if each had been divided by their sum.
    pub open spec fn overall(&self, weights: TrustWeights) -> int {
        weighted_average(self.weighted(weights))
    }

    /// The sum of the sub-scores, each multiplied by its weight.
    pub open spec fn weighted_total(&self, weights: TrustWeights) -> int {
        self.behavior * weights.behavior + self.certificate * weights.certificate + self.history
            * weights.history + self.proximity * weights.proximity + self.sensor * weights.sensor
    }
}

/// The smaller of two numbers.
pub open spec fn least(a: int, b: int) -> int {
    if a <= b {
        a
    } else {
        b
    }
}

/// The behavior score: what the anomaly score leaves of 1.
pub open spec fn behavior_score(anomaly_score: int) -> int {
    if anomaly_score >= SCORE_ONE {
        0
    } else if anomaly_score <= 0 {
        SCORE_ONE as int
    } else {
        SCORE_ONE - anomaly_score
    }
}

/// Whether the certificate expires within the warning time of the instant
/// `now`.
pub open spec fn near_expiry(pki: PkiVerdict, now: int, warning: int) -> bool {
    pki.cert_expiry_time <= now + warning
}

/// The certificate score: 0 where the certificate or the signature is
/// invalid, 0.5 where both are valid but the certificate is near its expiry,
/// and 1 otherwise.
pub open spec fn certificate_score(pki: PkiVerdict, now: int, warning: int) -> int {
    if !pki.certificate_valid || !pki.signature_valid {
        0
    } else if near_expiry(pki, now, warning) {
        SCORE_NEUTRAL as int
    } else {
        SCORE_ONE as int
    }
}

/// The history score: the moving average of the lineage, cut to 1, and 0.5
/// where the lineage is not known.
pub open spec fn history_score(lineage: Signal<TrustScore>) -> int {
    match lineage {
        Signal::Value(average) => least(average as int, SCORE_ONE as int),
        Signal::Unavailable => SCORE_NEUTRAL as int,
    }
}

/// The number of neighbors whose trust score reaches the threshold.
pub open spec fn trusted_count(neighbors: Seq<Neighbor>, threshold: TrustScore) -> nat
    decreases neighbors.len(),
{
    if neighbors.len() == 0 {
        0
    } else if neighbors.last().trust_score >= threshold {
        trusted_count(neighbors.drop_last(), threshold) + 1
    } else {
        trusted_count(neighbors.drop_last(), threshold)
    }
}

/// The proximity score: the part of the neighbors that is trusted, rounded
/// down, and 0.5 where no neighbor is known.
pub open spec fn proximity_score(proximity: Signal<Vec<Neighbor>>, threshold: TrustScore) -> int {
    match proximity {
        Signal::Value(neighbors) => if neighbors@.len() == 0 {
            SCORE_NEUTRAL as int
        } else {
            SCORE_ONE * trusted_count(neighbors@, threshold) / (neighbors@.len() as int)
        },
        Signal::Unavailable => SCORE_NEUTRAL as int,
    }
}

/// The sensor score: 1 less the number of sensor inconsistencies of the
/// last 24 hours as a part of the limit, the part rounded down; 0 from the
/// limit on.
pub open spec fn sensor_score(inconsistencies: int, limit: int) -> int {
    if limit <= 0 {
        if inconsistencies > 0 {
            0
        } else {
            SCORE_ONE as int
        }
    } else {
        SCORE_ONE - SCORE_ONE * least(inconsistencies, limit) / limit
    }
}

/// The threat level, from 0 to 10: ten times the anomaly score, rounded to
/// the nearest whole, raised by 2 for a replay or an invalid signature, and
/// cut to 10.
pub open spec fn threat_level(anomaly_score: int, not_replay: bool, signature_valid: bool) -> int {
    let base = (anomaly_score * 10 + SCORE_ONE / 2) / (SCORE_ONE as int);
    let raised = if !not_replay || !signature_valid {
        base + 2
    } else {
        base
    };
    least(raised, 10)
}

/// No more neighbors are trusted than there are.
pub proof fn lemma_trusted_count_bounded(neighbors: Seq<Neighbor>, threshold: TrustScore)
    ensures
        trusted_count(neighbors, threshold) <= neighbors.len(),
    decreases neighbors.len(),
{
    if neighbors.len() > 0 {
        lemma_trusted_count_bounded(neighbors.drop_last(), threshold);
    }
}

/// The sums of the five weighted sub-scores, written out.
pub proof fn lemma_weighted_sums(scores: SubScores, weights: TrustWeights)
    ensures
        weight_sum(scores.weighted(weights)) == weights.total(),
        weighted_sum(scores.weighted(weights)) == scores.weighted_total(weights),
{
    let s5 = scores.weighted(weights);
    let s4 = s5.drop_last();
    let s3 = s4.drop_last();
    let s2 = s3.drop_last();
    let s1 = s2.drop_last();
    let s0 = s1.drop_last();
    assert(s0.len() == 0);
    assert(weight_sum(s0) == 0 && weighted_sum(s0) == 0);
    assert(s1.last() == s5[0]);
    assert(weight_sum(s1) == weights.behavior);
    assert(weighted_sum(s1) == scores.behavior * weights.behavior);
    assert(s2.last() == s5[1]);
    assert(weight_sum(s2) == weight_sum(s1) + weights.certificate);
    assert(weighted_sum(s2) == weighted_sum(s1) + scores.certificate * weights.certificate);
    assert(s3.last() == s5[2]);
    assert(weight_sum(s3) == weight_sum(s2) + weights.history);
    assert(weighted_sum(s3) == weighted_sum(s2) + scores.history * weights.history);
    assert(s4.last() == s5[3]);
    assert(weight_sum(s4) == weight_sum(s3) + weights.proximity);
    assert(weighted_sum(s4) == weighted_sum(s3) + scores.proximity * weights.proximity);
    assert(s5.last() == s5[4]);
    assert(weight_sum(s5) == weight_sum(s4) + weights.sensor);
    assert(weighted_sum(s5) == weighted_sum(s4) + scores.sensor * weights.sensor);
}

/// The overall score is the weighted sum of the sub-scores, rescaled so
/// that the weights sum to 1, and rounded down: with `total` the sum of the
/// weights, it is the whole part of the weighted sum divided by `total`.
pub proof fn lemma_overall_is_rescaled_sum(scores: SubScores, weights: TrustWeights)
    requires
        weights.total() > 0,
    ensures
        scores.overall(weights) == scores.weighted_total(weights) / weights.total(),
        scores.overall(weights) * weights.total() <= scores.weighted_total(weights),
        scores.weighted_total(weights) < (scores.overall(weights) + 1) * weights.total(),
{
    lemma_weighted_sums(scores, weights);
    let sum = scores.weighted_total(weights);
    let total = weights.total();
    vstd::arithmetic::div_mod::lemma_fundamental_div_mod(sum, total);
    vstd::arithmetic::div_mod::lemma_mod_bound(sum, total);
    assert(total * (sum / total) == (sum / total) * total) by (nonlinear_arith);
    assert((sum / total + 1) * total == (sum / total) * total + total) by (nonlinear_arith);
}

/// Sub-scores between 0 and 1 give an overall score between 0 and 1,
/// whatever the weights.
pub proof fn lemma_overall_in_range(scores: SubScores, weights: TrustWeights)
    requires
        scores.in_range(),
    ensures
        0 <= scores.overall(weights) <= SCORE_ONE,
{
    lemma_average_bounded(scores.weighted(weights), SCORE_ONE as int);
}

/// One term of a weighted sum, with its weight in proportion.
proof fn lemma_term_in_proportion(score: int, first: int, second: int, a: int, b: int)
    by (nonlinear_arith)
    requires
        a * first == b * second,
    ensures
        a * (score * first) == b * (score * second),
{
}

/// A sum of five terms, multiplied term by term.
proof fn lemma_sum_multiplied(k: int, v: int, w: int, x: int, y: int, z: int)
    by (nonlinear_arith)
    ensures
        k * (v + w + x + y + z) == k * v + k * w + k * x + k * y + k * z,
{
}

/// Only the proportions of the weights count: weights in the same
/// proportions give the same overall score, whatever they sum to. Weights
/// that sum to 0.8 weigh as the same weights multiplied by 1.25, which sum
/// to 1.
pub proof fn lemma_overall_depends_on_proportions(
    scores: SubScores,
    first: TrustWeights,
    second: TrustWeights,
    a: int,
    b: int,
)
    requires
        a > 0,
        b > 0,
        a * first.behavior == b * second.behavior,
        a * first.certificate == b * second.certificate,
        a * first.history == b * second.history,
        a * first.proximity == b * second.proximity,
        a * first.sensor == b * second.sensor,
    ensures
        scores.overall(first) == scores.overall(second),
{
    lemma_weighted_sums(scores, first);
    lemma_weighted_sums(scores, second);
    lemma_sums_bounded(scores.weighted(first), u32::MAX as int);
    lemma_sums_bounded(scores.weighted(second), u32::MAX as int);
    let sum1 = scores.weighted_total(first);
    let sum2 = scores.weighted_total(second);
    let total1 = first.total();
    let total2 = second.total();
    assert(a * total1 == b * total2) by {
        lemma_sum_multiplied(
            a,
            first.behavior as int,
            first.certificate as int,
            first.history as int,
            first.proximity as int,
            first.sensor as int,
        );
        lemma_sum_multiplied(
            b,
            second.behavior as int,
            second.certificate as int,
            second.history as int,
            second.proximity as int,
            second.sensor as int,
        );
    }
    assert(a * sum1 == b * sum2) by {
        lemma_term_in_proportion(
            scores.behavior as int,
            first.behavior as int,
            second.behavior as int,
            a,
            b,
        );
        lemma_term_in_proportion(
            scores.certificate as int,
            first.certificate as int,
            second.certificate as int,
            a,
            b,
        );
        lemma_term_in_proportion(
            scores.history as int,
            first.history as int,
            second.history as int,
            a,
            b,
        );
        lemma_term_in_proportion(
            scores.proximity as int,
            first.proximity as int,
            second.proximity as int,
            a,
            b,
        );
        lemma_term_in_proportion(
            scores.sensor as int,
            first.sensor as int,
            second.sensor as int,
            a,
            b,
        );
        lemma_sum_multiplied(
            a,
            scores.behavior * first.behavior,
            scores.certificate * first.certificate,
            scores.history * first.history,
            scores.proximity * first.proximity,
            scores.sensor * first.sensor,
        );
        lemma_sum_multiplied(
            b,
            scores.behavior * second.behavior,
            scores.certificate * second.certificate,
            scores.history * second.history,
            scores.proximity * second.proximity,
            scores.sensor * second.sensor,
        );
    }
    if total1 == 0 {
        assert(total2 == 0) by (nonlinear_arith)
            requires
                b > 0,
                total2 >= 0,
                b * total2 == 0,
        ;
    } else {
        assert(total2 != 0) by (nonlinear_arith)
            requires
                a > 0,
                total1 > 0,
                a * total1 == b * total2,
        ;
        vstd::arithmetic::div_mod::lemma_div_multiples_vanish_quotient(a, sum1, total1);
        vstd::arithmetic::div_mod::lemma_div_multiples_vanish_quotient(b, sum2, total2);
    }
}

/// Every score that the aggregator defines lies between 0 and 1, and the
/// threat level between 0 and 10.
pub proof fn lemma_scores_in_range(
    anomaly_score: int,
    pki: PkiVerdict,
    now: int,
    warning: int,
    lineage: Signal<TrustScore>,
    proximity: Signal<Vec<Neighbor>>,
    threshold: TrustScore,
    inconsistencies: int,
    limit: int,
    not_replay: bool,
)
    requires
        0 <= anomaly_score <= SCORE_ONE,
        0 <= inconsistencies,
    ensures
        0 <= behavior_score(anomaly_score) <= SCORE_ONE,
        0 <= certificate_score(pki, now, warning) <= SCORE_ONE,
        0 <= history_score(lineage) <= SCORE_ONE,
        0 <= proximity_score(proximity, threshold) <= SCORE_ONE,
        0 <= sensor_score(inconsistencies, limit) <= SCORE_ONE,
        0 <= threat_level(anomaly_score, not_replay, pki.signature_valid) <= 10,
{
    match proximity {
        Signal::Value(neighbors) => {
            if neighbors@.len() > 0 {
                lemma_trusted_count_bounded(neighbors@, threshold);
                lemma_part_of_whole(
                    trusted_count(neighbors@, threshold) as int,
                    neighbors@.len() as int,
                );
            }
        },
        Signal::Unavailable => {},
    }
    if limit > 0 {
        lemma_part_of_whole(least(inconsistencies, limit), limit);
    }
}

/// Computes the behavior score.
pub fn score_behavior(anomaly_score: AnomalyScore) -> (score: TrustScore)
    ensures
        score == behavior_score(anomaly_score as int),
        score <= SCORE_ONE,
{
    if anomaly_score >= SCORE_ONE {
        0
    } else {
        SCORE_ONE - anomaly_score
    }
}

/// Tells whether the certificate is near its expiry.
pub fn is_near_expiry(pki: &PkiVerdict, now: Timestamp, warning_ms: u64) -> (near: bool)
    ensures
        near == near_expiry(*pki, now as int, warning_ms as int),
{
    match now.checked_add(warning_ms) {
        Some(horizon) => pki.cert_expiry_time <= horizon,
        None => true,
    }
}

/// Computes the certificate score.
pub fn score_certificate(pki: &PkiVerdict, now: Timestamp, warning_ms: u64) -> (score: TrustScore)
    ensures
        score == certificate_score(*pki, now as int, warning_ms as int),
        score <= SCORE_ONE,
{
    if !pki.certificate_valid || !pki.signature_valid {
        0
    } else if is_near_expiry(pki, now, warning_ms) {
        SCORE_NEUTRAL
    } else {
        SCORE_ONE
    }
}

/// Computes the history score.
pub fn score_history(lineage: &Signal<TrustScore>) -> (score: TrustScore)
    ensures
        score == history_score(*lineage),
        score <= SCORE_ONE,
{
    match lineage {
        Signal::Value(average) => if *average > SCORE_ONE {
            SCORE_ONE
        } else {
            *average
        },
        Signal::Unavailable => SCORE_NEUTRAL,
    }
}

/// Counts the neighbors whose trust score reaches the threshold.
pub fn count_trusted(neighbors: &Vec<Neighbor>, threshold: TrustScore) -> (n: usize)
    ensures
        n == trusted_count(neighbors@, threshold),
        n <= neighbors@.len(),
{
    let mut n: usize = 0;
    let mut i: usize = 0;
    while i < neighbors.len()
        invariant
            i <= neighbors.len(),
            n == trusted_count(neighbors@.take(i as int), threshold),
            n <= i,
        decreases neighbors.len() - i,
    {
        proof {
            let next = neighbors@.take(i + 1);
            assert(next.drop_last() == neighbors@.take(i as int));
            assert(next.last() == neighbors@[i as int]);
        }
        if neighbors[i].trust_score >= threshold {
            n = n + 1;
        }
        i = i + 1;
    }
    assert(neighbors@.take(i as int) == neighbors@);
    n
}

/// Computes the proximity score.
pub fn score_proximity(proximity: &Signal<Vec<Neighbor>>, threshold: TrustScore) -> (score:
    TrustScore)
    ensures
        score == proximity_score(*proximity, threshold),
        score <= SCORE_ONE,
{
    match proximity {
        Signal::Value(neighbors) => {
            if neighbors.len() == 0 {
                SCORE_NEUTRAL
            } else {
                let trusted = count_trusted(neighbors, threshold);
                proof {
                    lemma_part_of_whole(trusted as int, neighbors@.len() as int);
                }
                ((SCORE_ONE as u128) * (trusted as u128) / (neighbors.len() as u128)) as u32
            }
        },
        Signal::Unavailable => SCORE_NEUTRAL,
    }
}

/// Computes the sensor score.
pub fn score_sensor(inconsistencies: usize, limit: u32) -> (score: TrustScore)
    ensures
        score == sensor_score(inconsistencies as int, limit as int),
        score <= SCORE_ONE,
{
    if limit == 0 {
        if inconsistencies > 0 {
            0
        } else {
            SCORE_ONE
        }
    } else {
        let counted: u64 = if inconsistencies as u64 >= limit as u64 {
            limit as u64
        } else {
            inconsistencies as u64
        };
        proof {
            lemma_part_of_whole(counted as int, limit as int);
        }
        SCORE_ONE - ((SCORE_ONE as u64) * counted / (limit as u64)) as u32
    }
}

/// Computes the overall score.
pub fn score_overall(scores: &SubScores, weights: &TrustWeights) -> (score: TrustScore)
    ensures
        score == scores.overall(*weights),
        scores.in_range() ==> score <= SCORE_ONE,
{
    let pairs: [(TrustScore, u32); 5] = [
        (scores.behavior, weights.behavior),
        (scores.certificate, weights.certificate),
        (scores.history, weights.history),
        (scores.proximity, weights.proximity),
        (scores.sensor, weights.sensor),
    ];
    proof {
        assert(pairs@ =~= scores.weighted(*weights));
        if scores.in_range() {
            lemma_overall_in_range(*scores, *weights);
        }
    }
    weighted_trust_average(pairs.as_slice())
}

/// Computes the threat level.
pub fn compute_threat_level(anomaly_score: AnomalyScore, not_replay: bool, signature_valid: bool) -> (level:
    u32)
    ensures
        level == threat_level(anomaly_score as int, not_replay, signature_valid),
        level <= 10,
{
    let base: u64 = ((anomaly_score as u64) * 10 + (SCORE_ONE as u64) / 2) / (SCORE_ONE as u64);
    let raised: u64 = if !not_replay || !signature_valid {
        base + 2
    } else {
        base
    };
    if raised > 10 {
        10
    } else {
        raised as u32
    }
}

} // verus!
