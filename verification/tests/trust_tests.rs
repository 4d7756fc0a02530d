use geovan::anomaly::bearing_change_between;
use geovan::model::category_at;
use geovan::anomaly::magnitude_of;
use geovan::model::name_of;
use geovan::context::Neighbor;
use geovan::context::PkiVerdict;
use geovan::context::Signal;
use geovan::model::AnomalyType;
use geovan::policy::TrustWeights;
use geovan::trust::compute_threat_level;
use geovan::trust::count_trusted;
use geovan::trust::is_near_expiry;
use geovan::trust::score_behavior;
use geovan::trust::score_certificate;
use geovan::trust::score_history;
use geovan::trust::score_overall;
use geovan::trust::score_proximity;
use geovan::trust::score_sensor;
use geovan::trust::SubScores;

fn pki(certificate_valid: bool, signature_valid: bool, cert_expiry_time: u64) -> PkiVerdict {
    PkiVerdict { certificate_valid, signature_valid, cert_expiry_time }
}

fn neighbors(scores: &[u32]) -> Vec<Neighbor> {
    scores
        .iter()
        .enumerate()
        .map(|(i, s)| Neighbor { vehicle_id: i as u128, trust_score: *s })
        .collect()
}

#[test]
fn behavior_is_what_the_anomalies_leave() {
    assert_eq!(score_behavior(0), 1_000_000);
    assert_eq!(score_behavior(1), 999_999);
    assert_eq!(score_behavior(250_000), 750_000);
    assert_eq!(score_behavior(1_000_000), 0);
    assert_eq!(score_behavior(u32::MAX), 0);
}

#[test]
fn certificate_scores() {
    assert_eq!(score_certificate(&pki(true, true, 2_000), 1_000, 999), 1_000_000);
    assert_eq!(score_certificate(&pki(true, true, 2_000), 1_000, 1_000), 500_000);
    assert_eq!(score_certificate(&pki(true, true, 500), 1_000, 0), 500_000);
    assert_eq!(score_certificate(&pki(false, true, 2_000), 1_000, 999), 0);
    assert_eq!(score_certificate(&pki(true, false, 2_000), 1_000, 999), 0);
    assert_eq!(score_certificate(&pki(false, false, 2_000), 1_000, 999), 0);

    assert!(!is_near_expiry(&pki(true, true, 1_001), 1_000, 0));
    assert!(is_near_expiry(&pki(true, true, 1_000), 1_000, 0));
    assert!(is_near_expiry(&pki(true, true, u64::MAX), u64::MAX, 1));
    assert!(!is_near_expiry(&pki(true, true, u64::MAX), u64::MAX - 1, 0));
}

#[test]
fn history_scores() {
    assert_eq!(score_history(&Signal::Unavailable), 500_000);
    assert_eq!(score_history(&Signal::Value(0)), 0);
    assert_eq!(score_history(&Signal::Value(812_345)), 812_345);
    assert_eq!(score_history(&Signal::Value(1_000_001)), 1_000_000);
}

#[test]
fn proximity_scores() {
    assert_eq!(score_proximity(&Signal::Unavailable, 700_000), 500_000);
    assert_eq!(score_proximity(&Signal::Value(vec![]), 700_000), 500_000);
    assert_eq!(score_proximity(&Signal::Value(neighbors(&[700_000])), 700_000), 1_000_000);
    assert_eq!(score_proximity(&Signal::Value(neighbors(&[699_999])), 700_000), 0);
    // one of three, rounded down
    assert_eq!(
        score_proximity(&Signal::Value(neighbors(&[100, 900_000, 200])), 700_000),
        333_333
    );
    assert_eq!(count_trusted(&neighbors(&[100, 900_000, 200, 700_000]), 700_000), 2);
    assert_eq!(count_trusted(&neighbors(&[]), 0), 0);
    assert_eq!(count_trusted(&neighbors(&[0, 0]), 0), 2);
}

#[test]
fn sensor_scores() {
    assert_eq!(score_sensor(0, 4), 1_000_000);
    assert_eq!(score_sensor(1, 4), 750_000);
    assert_eq!(score_sensor(4, 4), 0);
    assert_eq!(score_sensor(usize::MAX, 4), 0);
    // one of three is rounded down before it is taken off
    assert_eq!(score_sensor(1, 3), 666_667);
    assert_eq!(score_sensor(1, u32::MAX), 1_000_000);
    // without a limit any inconsistency costs everything
    assert_eq!(score_sensor(0, 0), 1_000_000);
    assert_eq!(score_sensor(1, 0), 0);
}

#[test]
fn overall_scores() {
    let scores = SubScores {
        behavior: 1_000_000,
        certificate: 500_000,
        history: 400_000,
        proximity: 750_000,
        sensor: 1_000_000,
    };
    assert_eq!(score_overall(&scores, &TrustWeights::default()), 760_000);

    // Weights that sum to 0.8, to 2 and to 20 millionths weigh alike.
    for (num, den) in [(4u32, 5u32), (2, 1), (1, 50_000)] {
        let d = TrustWeights::default();
        let scaled = TrustWeights {
            behavior: d.behavior / den * num,
            certificate: d.certificate / den * num,
            history: d.history / den * num,
            proximity: d.proximity / den * num,
            sensor: d.sensor / den * num,
        };
        assert_eq!(score_overall(&scores, &scaled), 760_000);
    }

    // One weight alone picks its score.
    let only_history =
        TrustWeights { behavior: 0, certificate: 0, history: 7, proximity: 0, sensor: 0 };
    assert_eq!(score_overall(&scores, &only_history), 400_000);
    // Without any weight there is no score.
    let none = TrustWeights { behavior: 0, certificate: 0, history: 0, proximity: 0, sensor: 0 };
    assert_eq!(score_overall(&scores, &none), 0);
    // (1 + 0 + 0 + 0 + 1) / 3 weights of 1, rounded down
    let thirds = TrustWeights { behavior: 1, certificate: 1, history: 0, proximity: 0, sensor: 1 };
    let ends = SubScores { behavior: 1, certificate: 0, history: 9, proximity: 9, sensor: 1 };
    assert_eq!(score_overall(&ends, &thirds), 0);
}

#[test]
fn threat_levels() {
    assert_eq!(compute_threat_level(0, true, true), 0);
    assert_eq!(compute_threat_level(49_999, true, true), 0);
    // half a level is rounded up
    assert_eq!(compute_threat_level(50_000, true, true), 1);
    assert_eq!(compute_threat_level(250_000, true, true), 3);
    assert_eq!(compute_threat_level(1_000_000, true, true), 10);
    assert_eq!(compute_threat_level(0, false, true), 2);
    assert_eq!(compute_threat_level(0, true, false), 2);
    // a replay with an invalid signature is raised once
    assert_eq!(compute_threat_level(0, false, false), 2);
    assert_eq!(compute_threat_level(849_999, false, true), 10);
    assert_eq!(compute_threat_level(749_999, false, true), 9);
    assert_eq!(compute_threat_level(1_000_000, false, false), 10);
    assert_eq!(compute_threat_level(u32::MAX, true, true), 10);
}

#[test]
fn bearings_and_magnitudes() {
    assert_eq!(bearing_change_between(0, 0), 0);
    assert_eq!(bearing_change_between(10_000, 350_000), 20_000);
    assert_eq!(bearing_change_between(350_000, 10_000), 20_000);
    assert_eq!(bearing_change_between(0, 180_000), 180_000);
    assert_eq!(bearing_change_between(0, 180_001), 179_999);
    // a full turn is no turn
    assert_eq!(bearing_change_between(360_000, 0), 0);
    assert_eq!(bearing_change_between(725_000, 5_000), 0);
    assert!(bearing_change_between(u32::MAX, 0) <= 180_000);

    assert_eq!(magnitude_of(0), 0);
    assert_eq!(magnitude_of(-7), 7);
    assert_eq!(magnitude_of(7), 7);
    assert_eq!(magnitude_of(i32::MAX), 2_147_483_647);
    assert_eq!(magnitude_of(i32::MIN), 2_147_483_648);
}

#[test]
fn categories_in_their_order() {
    let all: Vec<AnomalyType> = (0..12).map(category_at).collect();
    assert_eq!(
        all,
        vec![
            AnomalyType::SpeedViolation,
            AnomalyType::RapidAcceleration,
            AnomalyType::RapidDeceleration,
            AnomalyType::ErraticMovement,
            AnomalyType::PositionJump,
            AnomalyType::SensorInconsistency,
            AnomalyType::CertificateExpired,
            AnomalyType::SignatureInvalid,
            AnomalyType::ReplayAttempt,
            AnomalyType::FrequencyViolation,
            AnomalyType::LocationAnomaly,
            AnomalyType::BehaviorChange,
        ]
    );
    for kind in all {
        assert_eq!(name_of(kind), format!("{:?}", kind));
    }
}
