use chrono::Utc;
use geovan::model::EmergencyType;
use geovan::model::Position;
use geovan::model::TrustMetrics;
use geovan::model::VehiclePosition;
use geovan::traits::Identifiable;
use geovan::traits::MalformedInput;
use geovan::traits::Timestamped;
use geovan::traits::Trusted;
use geovan::traits::Validatable;
use geovan::utils;
use uuid::Uuid;

/// Degrees as the library counts them: in units of 1e-7 degree.
fn degrees(value: f64) -> i64 {
    (value * 1e7).round() as i64
}

/// A score as the library counts it: in millionths.
fn score(value: f64) -> u32 {
    (value * 1e6).round() as u32
}

/// A raw score, which may lie outside the range of scores, in millionths.
fn raw(value: f64) -> i64 {
    (value * 1e6).round() as i64
}

fn position(lat: f64, lon: f64) -> Position {
    Position {
        lat: degrees(lat),
        lon: degrees(lon),
        alt: None,
        accuracy_horizontal: None,
        accuracy_vertical: None,
        hdop: None,
        vdop: None,
        tdop: None,
        satellites_used: None,
        satellites_visible: None,
    }
}

fn report_at(timestamp: u64) -> VehiclePosition {
    VehiclePosition {
        vehicle_id: Uuid::new_v4().as_u128(),
        certificate_id: None,
        rsu_id: None,
        position: position(40.7128, -74.0060),
        velocity: None,
        heading: None,
        speed_accuracy: None,
        timestamp,
        sequence: 1,
        epoch: 1,
        metadata: None,
        sensors: vec![],
        capabilities: vec![],
        trust: None,
        security: None,
        network: None,
        route_waypoints: vec![],
        emergency_vehicle: false,
        emergency_type: EmergencyType::NotEmergency,
        priority_level: 0,
    }
}

#[test]
fn test_position_validation() {
    let mut pos = report_at(Utc::now().timestamp_millis() as u64);

    assert!(pos.validate().is_ok());

    // Test invalid latitude
    pos.position.lat = degrees(100.0);
    assert!(pos.validate().is_err());

    // Test invalid longitude
    pos.position.lat = degrees(40.7128);
    pos.position.lon = degrees(200.0);
    assert!(pos.validate().is_err());

    // Test invalid sequence
    pos.position.lon = degrees(-74.0060);
    pos.sequence = 0;
    assert!(pos.validate().is_err());
}

#[test]
fn test_trust_score_utils() {
    assert!(utils::is_trusted(score(0.8), score(0.7)));
    assert!(!utils::is_trusted(score(0.6), score(0.7)));

    assert_eq!(utils::normalize_trust_score(raw(1.5)), score(1.0));
    assert_eq!(utils::normalize_trust_score(raw(-0.5)), score(0.0));
    assert_eq!(utils::normalize_trust_score(raw(0.7)), score(0.7));

    let scores = vec![(score(0.8), score(0.6)), (score(0.6), score(0.4))];
    let avg = utils::weighted_trust_average(&scores);
    assert!((avg as f64 / 1e6 - 0.72).abs() < 0.01);
}

#[test]
fn validation_names_the_first_defect() {
    let now: u64 = 1_700_000_000_000;
    let mut pos = report_at(now);
    assert_eq!(pos.validate_at(now), Ok(()));

    pos.position.lat = degrees(-90.0000001);
    pos.position.lon = degrees(200.0);
    pos.sequence = 0;
    assert_eq!(pos.validate_at(now), Err("Invalid latitude".to_string()));
    assert_eq!(pos.check_well_formed(), Err(MalformedInput::LatitudeOutOfRange));

    pos.position.lat = degrees(-90.0);
    assert_eq!(pos.validate_at(now), Err("Invalid longitude".to_string()));
    assert_eq!(pos.check_well_formed(), Err(MalformedInput::LongitudeOutOfRange));

    pos.position.lon = degrees(180.0);
    assert_eq!(pos.validate_at(now), Err("Sequence number cannot be 0".to_string()));
    assert_eq!(pos.check_well_formed(), Err(MalformedInput::ZeroSequence));

    pos.sequence = 1;
    assert_eq!(pos.validate_at(now), Ok(()));
    assert_eq!(pos.check_well_formed(), Ok(()));
}

#[test]
fn validation_allows_a_day_of_distance() {
    let now: u64 = 1_700_000_000_000;
    let day: u64 = 86_400_000;
    let too_far = Err("Timestamp too far from current time".to_string());

    // 24 hours and 999 ms still count as 86400 whole seconds.
    assert_eq!(report_at(now - day - 999).validate_at(now), Ok(()));
    assert_eq!(report_at(now + day + 999).validate_at(now), Ok(()));
    assert_eq!(report_at(now - day - 1000).validate_at(now), too_far);
    assert_eq!(report_at(now + day + 1000).validate_at(now), too_far);
    assert_eq!(report_at(0).validate_at(now), too_far);

    // The distance in time is not a defect of the report.
    assert_eq!(report_at(0).check_well_formed(), Ok(()));
}

#[test]
fn validation_against_the_clock_rejects_an_old_report() {
    let old = report_at(1_000);
    assert_eq!(old.validate(), Err("Timestamp too far from current time".to_string()));
}

#[test]
fn defect_messages() {
    assert_eq!(MalformedInput::LatitudeOutOfRange.to_string(), "Invalid latitude");
    assert_eq!(MalformedInput::LongitudeOutOfRange.to_string(), "Invalid longitude");
    assert_eq!(MalformedInput::ZeroSequence.to_string(), "Sequence number cannot be 0");
}

#[test]
fn report_traits() {
    let mut pos = report_at(77);
    pos.vehicle_id = 0xa1a2a3a4_b1b2_c1c2_d1d2_d3d4d5d6d7d8;
    assert_eq!(*pos.id(), 0xa1a2a3a4_b1b2_c1c2_d1d2_d3d4d5d6d7d8);
    assert_eq!(*Timestamped::timestamp(&pos), 77);

    // Without metrics the score is 0, which only the threshold 0 accepts.
    assert_eq!(pos.trust_score(), 0);
    assert!(pos.is_trusted(0));
    assert!(!pos.is_trusted(1));

    pos.trust = Some(TrustMetrics {
        overall_score: score(0.75),
        behavior_score: 0,
        certificate_score: 0,
        history_score: 0,
        proximity_score: 0,
        sensor_score: 0,
        factors: vec![],
        flags: vec![],
        last_update: 0,
        next_update: 0,
        anomaly_score: 0,
        anomalies: vec![],
        anomaly_count: 0,
    });
    assert_eq!(pos.trust_score(), score(0.75));
    assert!(pos.is_trusted(score(0.75)));
    assert!(!pos.is_trusted(score(0.75) + 1));
}

#[test]
fn bounds_include_their_borders() {
    let p = position(40.7128, -74.0060);
    assert!(utils::is_within_bounds(&p, degrees(40.0), degrees(41.0), degrees(-75.0), degrees(-74.0)));
    assert!(utils::is_within_bounds(
        &p,
        degrees(40.7128),
        degrees(40.7128),
        degrees(-74.0060),
        degrees(-74.0060)
    ));
    assert!(!utils::is_within_bounds(&p, degrees(40.8), degrees(41.0), degrees(-75.0), degrees(-74.0)));
    assert!(!utils::is_within_bounds(&p, degrees(40.0), degrees(40.7), degrees(-75.0), degrees(-74.0)));
    assert!(!utils::is_within_bounds(&p, degrees(40.0), degrees(41.0), degrees(-74.0), degrees(-73.0)));
    assert!(!utils::is_within_bounds(&p, degrees(40.0), degrees(41.0), degrees(-76.0), degrees(-75.0)));
}

#[test]
fn generated_ids_are_random_uuids() {
    let first = utils::generate_vehicle_id();
    let second = utils::generate_vehicle_id();
    assert_ne!(first, second);
    for id in [first, second] {
        let uuid = Uuid::from_u128(id);
        assert_eq!(uuid.get_version_num(), 4);
        assert_eq!(uuid.get_variant(), uuid::Variant::RFC4122);
        assert_eq!(id & 0x0000_0000_0000_f000_c000_0000_0000_0000, 0x0000_0000_0000_4000_8000_0000_0000_0000);
    }
}

#[test]
fn clock_readings_become_timestamps() {
    assert_eq!(utils::timestamp_from_clock(None), 0);
    assert_eq!(utils::timestamp_from_clock(Some(0)), 0);
    assert_eq!(utils::timestamp_from_clock(Some(1_700_000_000_123)), 1_700_000_000_123);
    assert_eq!(utils::timestamp_from_clock(Some(u64::MAX as u128)), u64::MAX);
    assert_eq!(utils::timestamp_from_clock(Some(u64::MAX as u128 + 8)), 7);
}

#[test]
fn the_clock_runs_after_2020() {
    let before = Utc::now().timestamp_millis() as u64;
    let now = utils::current_timestamp_ms();
    let after = Utc::now().timestamp_millis() as u64;
    assert!(now > 1_577_836_800_000);
    assert!(before <= now + 1 && now <= after + 1);
}

#[test]
fn epochs_last_five_minutes() {
    assert_eq!(utils::EPOCH_LENGTH_MS, 300_000);
    assert_eq!(utils::epoch_of(0), 0);
    assert_eq!(utils::epoch_of(299_999), 0);
    assert_eq!(utils::epoch_of(300_000), 1);
    assert_eq!(utils::epoch_of(1_700_000_000_000), 5_666_666);
    assert_eq!(utils::epoch_of(u64::MAX), u64::MAX / 300_000);

    let before = utils::epoch_of(utils::current_timestamp_ms());
    let epoch = utils::current_epoch();
    assert!(epoch == before || epoch == before + 1);
}

#[test]
fn scores_are_cut_to_the_unit_range() {
    assert_eq!(utils::normalize_trust_score(0), 0);
    assert_eq!(utils::normalize_trust_score(-1), 0);
    assert_eq!(utils::normalize_trust_score(i64::MIN), 0);
    assert_eq!(utils::normalize_trust_score(1), 1);
    assert_eq!(utils::normalize_trust_score(999_999), 999_999);
    assert_eq!(utils::normalize_trust_score(1_000_000), 1_000_000);
    assert_eq!(utils::normalize_trust_score(1_000_001), 1_000_000);
    assert_eq!(utils::normalize_trust_score(i64::MAX), 1_000_000);
}

#[test]
fn trust_is_reached_at_the_threshold() {
    assert!(utils::is_trusted(700_000, 700_000));
    assert!(!utils::is_trusted(699_999, 700_000));
    assert!(utils::is_trusted(0, 0));
}

#[test]
fn weighted_averages() {
    // Nothing to average, and nothing that weighs.
    assert_eq!(utils::weighted_trust_average(&[]), 0);
    assert_eq!(utils::weighted_trust_average(&[(800_000, 0), (600_000, 0)]), 0);

    // 0.8 * 0.6 + 0.6 * 0.4 = 0.72
    assert_eq!(utils::weighted_trust_average(&[(800_000, 600_000), (600_000, 400_000)]), 720_000);

    // One score is its own average, whatever it weighs.
    assert_eq!(utils::weighted_trust_average(&[(123_456, 1)]), 123_456);
    assert_eq!(utils::weighted_trust_average(&[(123_456, u32::MAX)]), 123_456);

    // The average is rounded down: (1 + 2) / 2 = 1.5.
    assert_eq!(utils::weighted_trust_average(&[(1, 1), (2, 1)]), 1);

    // The largest values do not overflow.
    assert_eq!(
        utils::weighted_trust_average(&[(u32::MAX, u32::MAX), (u32::MAX, u32::MAX)]),
        u32::MAX
    );
}

#[test]
fn a_common_factor_of_the_weights_does_not_count() {
    let scores = [900_000u32, 100_000, 500_000, 333_333];
    let weights = [3u32, 1, 4, 1];
    for factor in [1u32, 2, 10, 250_000] {
        let plain: Vec<(u32, u32)> = scores.iter().copied().zip(weights.iter().copied()).collect();
        let scaled: Vec<(u32, u32)> =
            scores.iter().copied().zip(weights.iter().map(|w| w * factor)).collect();
        assert_eq!(utils::weighted_trust_average(&scaled), utils::weighted_trust_average(&plain));
    }
    // (2.7 + 0.1 + 2.0 + 0.333333) / 9 = 0.570370...
    let plain: Vec<(u32, u32)> = scores.iter().copied().zip(weights.iter().copied()).collect();
    assert_eq!(utils::weighted_trust_average(&plain), 570_370);
}
