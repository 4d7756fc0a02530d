//! Utility functions on the core types.

use vstd::prelude::*;
use vstd::arithmetic::div_mod::lemma_div_is_ordered;
use vstd::arithmetic::div_mod::lemma_div_multiples_vanish;
use vstd::arithmetic::div_mod::lemma_div_multiples_vanish_quotient;
use vstd::arithmetic::mul::lemma_mul_is_distributive_add;
use crate::model::Position;
use crate::model::TrustScore;
use crate::model::VehicleId;
use crate::model::SCORE_ONE;
use crate::outside::random_uuid_bits;
use crate::outside::since_unix_epoch;
use crate::outside::system_time_now;
use crate::outside::whole_millis;

verus! {

/// Length of one pseudonym epoch, in milliseconds (5 minutes).
pub const EPOCH_LENGTH_MS: u64 = 300_000;

/// Check if a position is within a bounding box, borders included.
pub fn is_within_bounds(
    position: &Position,
    min_lat: i64,
    max_lat: i64,
    min_lon: i64,
    max_lon: i64,
) -> (inside: bool)
    ensures
        inside == (min_lat <= position.lat <= max_lat && min_lon <= position.lon <= max_lon),
{
    position.lat >= min_lat && position.lat <= max_lat && position.lon >= min_lon
        && position.lon <= max_lon
}

/// Whether `bits` are those of a random (version 4) UUID of the RFC variant.
pub open spec fn is_random_uuid(bits: u128) -> bool {
    bits & 0x0000_0000_0000_f000_c000_0000_0000_0000 == 0x0000_0000_0000_4000_8000_0000_0000_0000
}

/// Generate a new vehicle ID.
pub fn generate_vehicle_id() -> (id: VehicleId)
    ensures
        is_random_uuid(id),
{
    random_uuid_bits()
}

/// The timestamp for a reading of the system clock: the milliseconds that
/// were read, cut to 64 bits, and 0 for a clock that stands before the epoch.
pub open spec fn clock_timestamp(reading: Option<u128>) -> int {
    match reading {
        Some(millis) => millis as int % 0x1_0000_0000_0000_0000,
        None => 0,
    }
}

/// Turns a reading of the system clock into a timestamp.
pub fn timestamp_from_clock(reading: Option<u128>) -> (timestamp: u64)
    ensures
        timestamp == clock_timestamp(reading),
{
    match reading {
        Some(millis) => (millis % 0x1_0000_0000_0000_0000) as u64,
        None => 0,
    }
}

/// Get current timestamp in milliseconds: the timestamp for what the system
/// clock reads at the moment of the call.
pub fn current_timestamp_ms() -> u64 {
    let reading = match since_unix_epoch(&system_time_now()) {
        Ok(elapsed) => Some(whole_millis(&elapsed)),
        Err(_) => None,
    };
    timestamp_from_clock(reading)
}

/// The epoch that contains the instant `timestamp_ms`.
pub open spec fn epoch_at(timestamp_ms: int) -> int {
    timestamp_ms / (EPOCH_LENGTH_MS as int)
}

/// Computes the epoch number of an instant given in milliseconds.
pub fn epoch_of(timestamp_ms: u64) -> (epoch: u64)
    ensures
        epoch == epoch_at(timestamp_ms as int),
{
    timestamp_ms / EPOCH_LENGTH_MS
}

/// Get current epoch number: the epoch of the current timestamp. Whatever
/// the clock reads, the number leaves room for the epochs to come.
pub fn current_epoch() -> (epoch: u64)
    ensures
        epoch <= u64::MAX / EPOCH_LENGTH_MS,
{
    epoch_of(current_timestamp_ms())
}

/// Check if a trust score indicates a trusted vehicle.
pub fn is_trusted(score: TrustScore, threshold: TrustScore) -> (trusted: bool)
    ensures
        trusted == (score >= threshold),
{
    score >= threshold
}

/// The score nearest to `raw` in the range from 0 to `SCORE_ONE`.
pub open spec fn clamp_score(raw: int) -> int {
    if raw < 0 {
        0
    } else if raw > SCORE_ONE {
        SCORE_ONE as int
    } else {
        raw
    }
}

/// Normalize a raw score to the range of trust scores.
pub fn normalize_trust_score(score: i64) -> (normal: TrustScore)
    ensures
        normal == clamp_score(score as int),
        normal <= SCORE_ONE,
{
    if score < 0 {
        0
    } else if score > SCORE_ONE as i64 {
        SCORE_ONE
    } else {
        score as u32
    }
}

/// Sum of the weights of `pairs`, each pair a score and its weight.
pub open spec fn weight_sum(pairs: Seq<(u32, u32)>) -> int
    decreases pairs.len(),
{
    if pairs.len() == 0 {
        0
    } else {
        weight_sum(pairs.drop_last()) + pairs.last().1
    }
}

/// Sum of the scores of `pairs`, each multiplied by its weight.
pub open spec fn weighted_sum(pairs: Seq<(u32, u32)>) -> int
    decreases pairs.len(),
{
    if pairs.len() == 0 {
        0
    } else {
        weighted_sum(pairs.drop_last()) + pairs.last().0 * pairs.last().1
    }
}

/// The weighted average of the scores of `pairs`, rounded down; 0 where
/// there is nothing to average or all weights are 0.
pub open spec fn weighted_average(pairs: Seq<(u32, u32)>) -> int {
    if weight_sum(pairs) == 0 {
        0
    } else {
        weighted_sum(pairs) / weight_sum(pairs)
    }
}

/// The sums are not negative, and the weighted sum is at most the greatest
/// score times the sum of the weights.
pub proof fn lemma_sums_bounded(pairs: Seq<(u32, u32)>, top: int)
    requires
        forall|i: int| 0 <= i < pairs.len() ==> (#[trigger] pairs[i]).0 <= top,
    ensures
        0 <= weight_sum(pairs) <= pairs.len() * u32::MAX,
        0 <= weighted_sum(pairs) <= top * weight_sum(pairs),
    decreases pairs.len(),
{
    if pairs.len() > 0 {
        let head = pairs.drop_last();
        let (score, weight) = pairs.last();
        lemma_sums_bounded(head, top);
        assert(0 <= score * weight <= top * weight) by (nonlinear_arith)
            requires
                0 <= score <= top,
                0 <= weight,
        ;
        assert(top * weight_sum(head) + top * weight == top * (weight_sum(head) + weight))
            by (nonlinear_arith);
        assert((pairs.len() - 1) * u32::MAX + u32::MAX == pairs.len() * u32::MAX)
            by (nonlinear_arith);
    }
}

/// The weighted average lies between 0 and the greatest score.
pub proof fn lemma_average_bounded(pairs: Seq<(u32, u32)>, top: int)
    requires
        0 <= top,
        forall|i: int| 0 <= i < pairs.len() ==> (#[trigger] pairs[i]).0 <= top,
    ensures
        0 <= weighted_average(pairs) <= top,
{
    lemma_sums_bounded(pairs, top);
    let total = weight_sum(pairs);
    if total != 0 {
        lemma_div_is_ordered(weighted_sum(pairs), top * total, total);
        lemma_div_is_ordered(0, weighted_sum(pairs), total);
        assert(top * total == total * top) by (nonlinear_arith);
        lemma_div_multiples_vanish(top, total);
    }
}

/// Weights that are a common multiple of others give the same average: only
/// the proportions of the weights count, not their sum.
pub proof fn lemma_average_ignores_common_factor(
    pairs: Seq<(u32, u32)>,
    scaled: Seq<(u32, u32)>,
    factor: int,
)
    requires
        factor > 0,
        scaled.len() == pairs.len(),
        forall|i: int|
            0 <= i < pairs.len() ==> (#[trigger] scaled[i]).0 == pairs[i].0 && scaled[i].1
                == factor * pairs[i].1,
    ensures
        weight_sum(scaled) == factor * weight_sum(pairs),
        weighted_sum(scaled) == factor * weighted_sum(pairs),
        weighted_average(scaled) == weighted_average(pairs),
    decreases pairs.len(),
{
    if pairs.len() > 0 {
        lemma_average_ignores_common_factor(pairs.drop_last(), scaled.drop_last(), factor);
        let (score, weight) = pairs.last();
        assert(scaled.last().0 == score && scaled.last().1 == factor * weight);
        lemma_mul_is_distributive_add(factor, weight_sum(pairs.drop_last()), weight as int);
        lemma_mul_is_distributive_add(
            factor,
            weighted_sum(pairs.drop_last()),
            score * weight,
        );
        assert(score * (factor * weight) == factor * (score * weight)) by (nonlinear_arith);
    }
    lemma_sums_bounded(pairs, u32::MAX as int);
    let total = weight_sum(pairs);
    if total != 0 {
        lemma_div_multiples_vanish_quotient(factor, weighted_sum(pairs), total);
    } else {
        assert(factor * total == 0) by (nonlinear_arith)
            requires
                total == 0,
        ;
    }
}

/// Calculate weighted average of trust scores, each given with its weight.
pub fn weighted_trust_average(scores: &[(TrustScore, u32)]) -> (average: TrustScore)
    ensures
        average == weighted_average(scores@),
{
    let mut total_weight: u128 = 0;
    let mut total: u128 = 0;
    let mut i: usize = 0;
    while i < scores.len()
        invariant
            i <= scores.len(),
            total_weight == weight_sum(scores@.take(i as int)),
            total == weighted_sum(scores@.take(i as int)),
            total_weight <= i * u32::MAX,
            total <= u32::MAX * total_weight,
        decreases scores.len() - i,
    {
        let (score, weight) = scores[i];
        proof {
            let next = scores@.take(i + 1);
            assert(next.drop_last() == scores@.take(i as int));
            assert(next.last() == scores@[i as int]);
            lemma_sums_bounded(next, u32::MAX as int);
            assert(score * weight <= u32::MAX * u32::MAX) by (nonlinear_arith)
                requires
                    0 <= score <= u32::MAX,
                    0 <= weight <= u32::MAX,
            ;
            assert(u32::MAX * total_weight <= u32::MAX * (i * u32::MAX)) by (nonlinear_arith)
                requires
                    total_weight <= i * u32::MAX,
            ;
            assert(u32::MAX * (i * u32::MAX) <= u32::MAX * (usize::MAX * u32::MAX))
                by (nonlinear_arith)
                requires
                    i <= usize::MAX,
            ;
        }
        total_weight = total_weight + weight as u128;
        total = total + (score as u128) * (weight as u128);
        i = i + 1;
    }
    proof {
        assert(scores@.take(i as int) == scores@);
        lemma_average_bounded(scores@, u32::MAX as int);
    }
    if total_weight == 0 {
        0
    } else {
        (total / total_weight) as u32
    }
}

} // verus!
