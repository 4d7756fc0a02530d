use geovan::context::EvaluationContext;
use geovan::context::Motion;
use geovan::context::PkiVerdict;
use geovan::context::Signal;
use geovan::evaluator::SecurityEvaluator;
use geovan::model::AnomalyType;
use geovan::model::EmergencyType;
use geovan::model::Position;
use geovan::model::VehiclePosition;
use geovan::policy::AnomalyWeights;
use geovan::policy::ClassLimits;
use geovan::policy::EvaluatorConfig;
use geovan::policy::KinematicLimits;
use geovan::policy::TrustWeights;
use geovan::replay::classify_state;
use geovan::replay::count_kind;
use geovan::replay::elapsed_since;
use geovan::replay::live_state;
use geovan::replay::roll_window;
use geovan::replay::AnomalyRecord;
use geovan::replay::GuardState;
use geovan::replay::IdentityState;
use geovan::store::IdentityStore;
use geovan::traits::MalformedInput;

const NOW: u64 = 1_700_000_000_000;
const EPOCH: u64 = NOW / 300_000;
const ROTATION_MS: u64 = 300_000;

fn policy() -> EvaluatorConfig {
    EvaluatorConfig {
        rotation_interval_ms: ROTATION_MS,
        max_clock_skew_ms: 5_000,
        min_report_interval_ms: 0,
        cert_expiry_warning_ms: 0,
        erratic_bearing_change: 60_000,
        erratic_min_speed: 10_000,
        sensor_speed_tolerance: 5_000,
        sensor_inconsistency_limit: 4,
        proximity_trust_threshold: 700_000,
        anomaly_weights: AnomalyWeights::default(),
        trust_weights: TrustWeights::default(),
        limits: ClassLimits::uniform(KinematicLimits {
            max_speed: 50_000,
            max_acceleration: 5_000,
            max_deceleration: 9_000,
            max_plausible_speed: 70_000,
        }),
    }
}

fn position() -> Position {
    Position {
        lat: 485_000_000,
        lon: 23_000_000,
        alt: None,
        accuracy_horizontal: None,
        accuracy_vertical: None,
        hdop: None,
        vdop: None,
        tdop: None,
        satellites_used: None,
        satellites_visible: None,
    }
}

fn report(vehicle_id: u128, sequence: u64, timestamp: u64) -> VehiclePosition {
    VehiclePosition {
        vehicle_id,
        certificate_id: None,
        rsu_id: None,
        position: position(),
        velocity: None,
        heading: None,
        speed_accuracy: None,
        timestamp,
        sequence,
        epoch: timestamp / 300_000,
        metadata: None,
        sensors: vec![],
        capabilities: vec![],
        trust: None,
        security: None,
        network: None,
        route_waypoints: vec![],
        emergency_vehicle: false,
        emergency_type: EmergencyType::NotEmergency,
        priority_level: 0,
    }
}

fn context(now: u64) -> EvaluationContext {
    EvaluationContext {
        now,
        current_epoch: now / 300_000,
        pki: PkiVerdict { certificate_valid: true, signature_valid: true, cert_expiry_time: u64::MAX },
        proximity: Signal::Unavailable,
        lineage: Signal::Unavailable,
        motion: Signal::Unavailable,
    }
}

fn memory(last_sequence: u64, last_access: u64) -> IdentityState {
    IdentityState {
        last_sequence,
        last_epoch: EPOCH,
        last_position: position(),
        last_timestamp: last_access,
        last_bearing: None,
        anomaly_window: vec![],
        last_access,
    }
}

#[test]
fn a_store_remembers_by_pseudonym() {
    let mut store = IdentityStore::new();
    assert_eq!(store.len(), 0);
    assert!(store.get(1).is_none());

    store.insert(1, memory(10, NOW));
    store.insert(2, memory(20, NOW));
    store.insert(3, memory(30, NOW));
    assert_eq!(store.len(), 3);
    assert_eq!(store.get(2).unwrap().last_sequence, 20);
    assert!(store.get(4).is_none());

    // A second memory for a pseudonym takes the place of the first.
    store.insert(2, memory(21, NOW));
    assert_eq!(store.len(), 3);
    assert_eq!(store.get(2).unwrap().last_sequence, 21);
    assert_eq!(store.get(1).unwrap().last_sequence, 10);
    assert_eq!(store.get(3).unwrap().last_sequence, 30);

    assert_eq!(store.remove(1).unwrap().last_sequence, 10);
    assert!(store.remove(1).is_none());
    assert_eq!(store.len(), 2);
    assert!(store.get(1).is_none());
    assert_eq!(store.get(2).unwrap().last_sequence, 21);
    assert_eq!(store.get(3).unwrap().last_sequence, 30);
}

#[test]
fn a_sweep_evicts_what_was_silent() {
    let mut store = IdentityStore::new();
    for id in 0..10u128 {
        // pseudonym `id` was last evaluated `id` minutes ago
        store.insert(id, memory(id as u64 + 1, NOW - id as u64 * 60_000));
    }
    // A sweep with a TTL of five minutes keeps 0 to 5.
    assert_eq!(store.sweep(NOW, ROTATION_MS), 4);
    assert_eq!(store.len(), 6);
    for id in 0..10u128 {
        assert_eq!(store.get(id).map(|m| m.last_sequence), if id <= 5 { Some(id as u64 + 1) } else { None });
    }
    // A second sweep at the same instant finds nothing to evict.
    assert_eq!(store.sweep(NOW, ROTATION_MS), 0);
    // One millisecond later the oldest is due.
    assert_eq!(store.sweep(NOW + 1, ROTATION_MS), 1);
    assert!(store.get(5).is_none());
    // A clock that runs backwards evicts nothing.
    assert_eq!(store.sweep(0, 0), 0);
    assert_eq!(store.sweep(NOW + 1, 0), 5);
    assert_eq!(store.len(), 0);
}

#[test]
fn the_store_threads_the_memory_through_the_evaluations() {
    let evaluator = SecurityEvaluator::new(policy()).unwrap();
    let mut store = IdentityStore::new();

    let (flags, metrics) = store.evaluate(&evaluator, &report(7, 1, NOW), &context(NOW)).unwrap();
    assert!(flags.not_replay);
    assert!(metrics.anomalies.is_empty());
    assert_eq!(store.len(), 1);
    assert_eq!(store.get(7).unwrap().last_sequence, 1);

    // The same report again is a replay, and is counted in the window.
    let (flags, metrics) =
        store.evaluate(&evaluator, &report(7, 1, NOW), &context(NOW + 10)).unwrap();
    assert!(!flags.not_replay);
    assert_eq!(metrics.anomalies, vec![AnomalyType::ReplayAttempt]);
    assert_eq!(metrics.anomaly_count, 1);
    assert_eq!(store.get(7).unwrap().last_sequence, 1);
    assert_eq!(store.get(7).unwrap().last_access, NOW + 10);

    // Another pseudonym has a memory of its own.
    let (flags, _) = store.evaluate(&evaluator, &report(8, 1, NOW + 20), &context(NOW + 20)).unwrap();
    assert!(flags.not_replay);
    assert_eq!(store.len(), 2);

    // The evaluation reads the memory that the store holds.
    let (flags, metrics) =
        store.evaluate(&evaluator, &report(7, 2, NOW + 30), &context(NOW + 30)).unwrap();
    assert!(flags.not_replay);
    assert_eq!(metrics.anomaly_count, 1);
    let direct = evaluator
        .evaluate(&report(7, 3, NOW + 40), store.get(7), &context(NOW + 40))
        .unwrap();
    let (flags, metrics) =
        store.evaluate(&evaluator, &report(7, 3, NOW + 40), &context(NOW + 40)).unwrap();
    assert_eq!(format!("{:?}", flags), format!("{:?}", direct.flags));
    assert_eq!(format!("{:?}", metrics), format!("{:?}", direct.metrics));
    assert_eq!(format!("{:?}", store.get(7).unwrap()), format!("{:?}", direct.state));

    // A malformed report leaves the store as it was.
    let before = format!("{:?}", store.get(7).unwrap());
    let mut bad = report(7, 0, NOW + 50);
    bad.position.lon = 1_800_000_001;
    assert_eq!(
        store.evaluate(&evaluator, &bad, &context(NOW + 50)).err(),
        Some(MalformedInput::LongitudeOutOfRange)
    );
    assert_eq!(format!("{:?}", store.get(7).unwrap()), before);
    assert_eq!(
        store.evaluate(&evaluator, &report(9, 0, NOW), &context(NOW)).err(),
        Some(MalformedInput::ZeroSequence)
    );
    assert_eq!(store.len(), 2);
}

#[test]
fn a_sweep_changes_no_evaluation() {
    let evaluator = SecurityEvaluator::new(policy()).unwrap();
    let later = NOW + ROTATION_MS + 1;
    let mut swept = IdentityStore::new();
    let mut unswept = IdentityStore::new();
    for store in [&mut swept, &mut unswept] {
        store.evaluate(&evaluator, &report(1, 9, NOW), &context(NOW)).unwrap();
        store.evaluate(&evaluator, &report(2, 9, NOW + 2), &context(NOW + 2)).unwrap();
    }
    assert_eq!(swept.sweep(later, ROTATION_MS), 1);
    assert!(swept.get(1).is_none());

    for id in [1u128, 2] {
        let mut ctx = context(later);
        ctx.motion = Signal::Value(Motion { distance_mm: 1_000_000_000, bearing: 0 });
        // a report of the epoch of the first one, with a smaller sequence number
        let mut again = report(id, 3, later);
        again.epoch = EPOCH;
        let a = swept.evaluate(&evaluator, &again, &ctx).unwrap();
        let b = unswept.evaluate(&evaluator, &again, &ctx).unwrap();
        assert_eq!(format!("{:?}", a), format!("{:?}", b));
        assert_eq!(
            format!("{:?}", swept.get(id).unwrap()),
            format!("{:?}", unswept.get(id).unwrap())
        );
        // 1 was stale and is met as unseen; 2 is active and replays.
        assert_eq!(a.0.not_replay, id == 1);
    }
}

#[test]
fn the_life_of_an_identity() {
    assert_eq!(classify_state(None, NOW, ROTATION_MS), GuardState::Unseen);
    let m = memory(1, NOW);
    assert_eq!(classify_state(Some(&m), NOW, ROTATION_MS), GuardState::Active);
    assert_eq!(classify_state(Some(&m), NOW + ROTATION_MS, ROTATION_MS), GuardState::Active);
    assert_eq!(classify_state(Some(&m), NOW + ROTATION_MS + 1, ROTATION_MS), GuardState::Stale);
    // A clock that runs backwards makes nothing stale.
    assert_eq!(classify_state(Some(&m), 0, ROTATION_MS), GuardState::Active);
    assert_eq!(classify_state(Some(&m), u64::MAX, u64::MAX), GuardState::Active);

    assert!(live_state(Some(&m), NOW + ROTATION_MS, ROTATION_MS).is_some());
    assert!(live_state(Some(&m), NOW + ROTATION_MS + 1, ROTATION_MS).is_none());
    assert!(live_state(None, NOW, ROTATION_MS).is_none());

    assert_eq!(elapsed_since(10, 3), 7);
    assert_eq!(elapsed_since(3, 10), 0);
    assert_eq!(elapsed_since(u64::MAX, 0), u64::MAX);
}

#[test]
fn rolling_and_counting() {
    let day: u64 = 86_400_000;
    let mut m = memory(1, NOW);
    m.anomaly_window = vec![
        AnomalyRecord { at: NOW - day, kind: AnomalyType::PositionJump },
        AnomalyRecord { at: NOW - day + 1, kind: AnomalyType::PositionJump },
        AnomalyRecord { at: NOW, kind: AnomalyType::SpeedViolation },
    ];
    let raised = vec![AnomalyType::PositionJump, AnomalyType::ReplayAttempt];
    let rolled = roll_window(Some(&m), &raised, NOW);
    assert_eq!(
        rolled,
        vec![
            AnomalyRecord { at: NOW - day + 1, kind: AnomalyType::PositionJump },
            AnomalyRecord { at: NOW, kind: AnomalyType::SpeedViolation },
            AnomalyRecord { at: NOW, kind: AnomalyType::PositionJump },
            AnomalyRecord { at: NOW, kind: AnomalyType::ReplayAttempt },
        ]
    );
    assert_eq!(count_kind(&rolled, AnomalyType::PositionJump), 2);
    assert_eq!(count_kind(&rolled, AnomalyType::ReplayAttempt), 1);
    assert_eq!(count_kind(&rolled, AnomalyType::BehaviorChange), 0);
    assert_eq!(count_kind(&vec![], AnomalyType::PositionJump), 0);

    assert_eq!(
        roll_window(None, &raised, 5),
        vec![
            AnomalyRecord { at: 5, kind: AnomalyType::PositionJump },
            AnomalyRecord { at: 5, kind: AnomalyType::ReplayAttempt },
        ]
    );
    assert!(roll_window(None, &vec![], NOW).is_empty());
}
