//! The report data model.
//!
//! Every quantity is held as an integer in a fixed unit, so that each rule of
//! the evaluation is exact:
//!
//! | quantity            | unit                                   |
//! |---------------------|----------------------------------------|
//! | latitude, longitude | 10⁻⁷ degree (WGS84)                     |
//! | length, altitude    | millimetre                             |
//! | speed               | millimetre per second                  |
//! | acceleration        | millimetre per second squared          |
//! | angle, heading      | millidegree, clockwise from true north |
//! | score, weight       | millionth (`SCORE_ONE` is 1.0)         |
//! | instant             | millisecond since the Unix epoch (UTC) |

use vstd::prelude::*;

verus! {

/// Ephemeral pseudonym of a vehicle: the 128 bits of a UUID.
pub type VehicleId = u128;

/// An instant, in milliseconds since the Unix epoch.
pub type Timestamp = u64;

/// A trust score in millionths: `0` is no trust, `SCORE_ONE` is full trust.
pub type TrustScore = u32;

/// An anomaly score in millionths: `0` is normal, `SCORE_ONE` is highly anomalous.
pub type AnomalyScore = u32;

/// The score 1.0.
pub const SCORE_ONE: u32 = 1_000_000;

/// The score 0.5, which stands in for a signal that is not available.
pub const SCORE_NEUTRAL: u32 = 500_000;

/// Latitude of the north pole, in units of 10⁻⁷ degree.
pub const LAT_MAX: i64 = 900_000_000;

/// Longitude of the antimeridian, in units of 10⁻⁷ degree.
pub const LON_MAX: i64 = 1_800_000_000;

/// A full turn, in millidegrees.
pub const FULL_TURN: u32 = 360_000;

/// One day, in milliseconds.
pub const DAY_MS: u64 = 86_400_000;

/// Vehicle position in 3D space with accuracy metrics.
#[derive(Debug, Clone, Copy)]
pub struct Position {
    /// Latitude in WGS84 (10⁻⁷ degree).
    pub lat: i64,
    /// Longitude in WGS84 (10⁻⁷ degree).
    pub lon: i64,
    /// Altitude above sea level (mm).
    pub alt: Option<i64>,
    /// Horizontal accuracy (mm, 95% confidence).
    pub accuracy_horizontal: Option<u32>,
    /// Vertical accuracy (mm, 95% confidence).
    pub accuracy_vertical: Option<u32>,
    /// Horizontal dilution of precision (hundredths).
    pub hdop: Option<u32>,
    /// Vertical dilution of precision (hundredths).
    pub vdop: Option<u32>,
    /// Time dilution of precision (hundredths).
    pub tdop: Option<u32>,
    /// Number of satellites used for positioning.
    pub satellites_used: Option<u32>,
    /// Total satellites visible.
    pub satellites_visible: Option<u32>,
}

/// 3D velocity vector with accuracy.
#[derive(Debug, Clone, Copy)]
pub struct Velocity {
    /// Velocity in X direction (mm/s).
    pub vx: i32,
    /// Velocity in Y direction (mm/s).
    pub vy: i32,
    /// Velocity in Z direction (mm/s).
    pub vz: i32,
    /// Total speed magnitude (mm/s).
    pub speed: u32,
    /// Speed measurement accuracy (mm/s).
    pub speed_accuracy: Option<u32>,
    /// Acceleration (mm/s²); the rules read its magnitude.
    pub acceleration: Option<i32>,
    /// Deceleration (mm/s²); the rules read its magnitude.
    pub deceleration: Option<i32>,
}

/// Vehicle type classification.
#[derive(Debug, Clone, Copy, PartialEq, Eq, Hash, Structural)]
pub enum VehicleType {
    Unknown,
    PassengerCar,
    Truck,
    Bus,
    Motorcycle,
    EmergencyVehicle,
    PublicTransport,
    DeliveryVan,
    Taxi,
    RideShare,
    Government,
    Military,
    Construction,
    Agricultural,
    Recreational,
}

/// Vehicle size categories.
#[derive(Debug, Clone, Copy, PartialEq, Eq, Hash, Structural)]
pub enum VehicleSize {
    /// Smart car, small motorcycle.
    Micro,
    /// Compact car, large motorcycle.
    Small,
    /// Sedan, small SUV.
    Medium,
    /// Large SUV, pickup truck.
    Large,
    /// Bus, large truck.
    ExtraLarge,
    /// Oversized load, special transport.
    Oversized,
}

/// Fuel type enumeration.
#[derive(Debug, Clone, Copy, PartialEq, Eq, Hash, Structural)]
pub enum FuelType {
    Gasoline,
    Diesel,
    Electric,
    Hybrid,
    PluginHybrid,
    Hydrogen,
    NaturalGas,
    Biofuel,
}

/// Euro emission standards.
#[derive(Debug, Clone, Copy, PartialEq, Eq, Hash, Structural)]
pub enum EuroEmissionStandard {
    Euro1,
    Euro2,
    Euro3,
    Euro4,
    Euro5,
    Euro6,
    Euro7,
    ZeroEmission,
}

/// Safety features.
#[derive(Debug, Clone, Copy, PartialEq, Eq, Hash, Structural)]
pub enum SafetyFeature {
    /// Anti-lock braking system.
    Abs,
    /// Electronic stability control.
    Esc,
    /// Traction control system.
    Tcs,
    /// Blind spot information system.
    Blis,
    /// Lane departure warning.
    Ldw,
    /// Forward collision warning.
    Fcw,
    /// Autonomous emergency braking.
    Aeb,
    /// Blind spot monitoring.
    Bsm,
    /// Rear cross traffic alert.
    Rcta,
    ParkingSensors,
    BackupCamera,
    /// 360-degree camera system.
    SurroundView,
}

/// Autonomous driving levels.
#[derive(Debug, Clone, Copy, PartialEq, Eq, Hash, Structural)]
pub enum AutonomousLevel {
    /// No automation.
    Level0,
    /// Driver assistance.
    Level1,
    /// Partial automation.
    Level2,
    /// Conditional automation.
    Level3,
    /// High automation.
    Level4,
    /// Full automation.
    Level5,
}

/// Vehicle metadata and capabilities.
#[derive(Debug, Clone)]
pub struct VehicleMetadata {
    /// Vehicle manufacturer.
    pub make: Option<String>,
    /// Vehicle model.
    pub model: Option<String>,
    /// Manufacturing year.
    pub year: Option<String>,
    /// Vehicle Identification Number (encrypted).
    pub vin: Option<String>,
    /// Vehicle classification.
    pub vehicle_type: VehicleType,
    /// Vehicle size category.
    pub size: VehicleSize,
    /// Vehicle features (ABS, ESC, etc.).
    pub features: Vec<String>,
    /// Safety and compliance certifications.
    pub certifications: Vec<String>,
    /// Fuel type.
    pub fuel_type: Option<FuelType>,
    /// Fuel efficiency (thousandths of L/100km or mpg).
    pub fuel_efficiency: Option<u32>,
    /// Emission standard.
    pub emission_standard: Option<EuroEmissionStandard>,
    /// Safety features.
    pub safety_features: Vec<SafetyFeature>,
    /// Number of airbags.
    pub airbag_count: Option<u32>,
    /// Whether vehicle is autonomous capable.
    pub autonomous_capable: bool,
    /// Autonomous driving level.
    pub autonomous_level: AutonomousLevel,
}

/// Sensor types.
#[derive(Debug, Clone, Copy, PartialEq, Eq, Hash, Structural)]
pub enum SensorType {
    Gps,
    Accelerometer,
    Gyroscope,
    Magnetometer,
    Temperature,
    Humidity,
    Pressure,
    FuelLevel,
    EngineRpm,
    EngineTemp,
    OilPressure,
    TirePressure,
    BrakePressure,
    SteeringAngle,
    WheelSpeed,
    BatteryVoltage,
    BatteryTemp,
    ChargingStatus,
    RangeEstimate,
}

/// Sensor reading with metadata.
#[derive(Debug, Clone)]
pub struct SensorReading {
    /// Sensor type.
    pub sensor_type: SensorType,
    /// Sensor value (thousandths of `unit`).
    pub value: i64,
    /// Measurement accuracy (thousandths of `unit`).
    pub accuracy: Option<u32>,
    /// When reading was taken.
    pub timestamp: Timestamp,
    /// Unit of measurement.
    pub unit: String,
    /// Minimum expected value (thousandths of `unit`).
    pub min_value: Option<i64>,
    /// Maximum expected value (thousandths of `unit`).
    pub max_value: Option<i64>,
    /// Whether sensor is calibrated.
    pub is_calibrated: bool,
    /// Last calibration date.
    pub calibration_date: Option<u64>,
}

/// Vehicle capability.
#[derive(Debug, Clone)]
pub struct Capability {
    /// Capability name.
    pub name: String,
    /// Capability version.
    pub version: String,
    /// Whether capability is enabled.
    pub enabled: bool,
    /// Capability parameters.
    pub parameters: Vec<String>,
    /// Last capability update.
    pub last_update: u64,
}

/// Anomaly types.
#[derive(Debug, Clone, Copy, PartialEq, Eq, Hash, Structural)]
pub enum AnomalyType {
    /// Speed exceeds limits.
    SpeedViolation,
    /// Unusual acceleration.
    RapidAcceleration,
    /// Unusual deceleration.
    RapidDeceleration,
    /// Erratic driving pattern.
    ErraticMovement,
    /// Unrealistic position change.
    PositionJump,
    /// Sensor data inconsistency.
    SensorInconsistency,
    /// Expired certificate.
    CertificateExpired,
    /// Invalid cryptographic signature.
    SignatureInvalid,
    /// Potential replay attack.
    ReplayAttempt,
    /// Message frequency violation.
    FrequencyViolation,
    /// Location-based anomaly.
    LocationAnomaly,
    /// Sudden behavior change.
    BehaviorChange,
}

/// The number of anomaly categories.
pub const CATEGORIES: usize = 12;

/// The category that `AnomalyType` declares in place `n`, counted from 0.
pub open spec fn category(n: int) -> AnomalyType {
    if n <= 0 {
        AnomalyType::SpeedViolation
    } else if n == 1 {
        AnomalyType::RapidAcceleration
    } else if n == 2 {
        AnomalyType::RapidDeceleration
    } else if n == 3 {
        AnomalyType::ErraticMovement
    } else if n == 4 {
        AnomalyType::PositionJump
    } else if n == 5 {
        AnomalyType::SensorInconsistency
    } else if n == 6 {
        AnomalyType::CertificateExpired
    } else if n == 7 {
        AnomalyType::SignatureInvalid
    } else if n == 8 {
        AnomalyType::ReplayAttempt
    } else if n == 9 {
        AnomalyType::FrequencyViolation
    } else if n == 10 {
        AnomalyType::LocationAnomaly
    } else {
        AnomalyType::BehaviorChange
    }
}

/// Finds the category that is declared in place `n`.
pub fn category_at(n: usize) -> (kind: AnomalyType)
    ensures
        kind == category(n as int),
        n < CATEGORIES ==> place(kind) == n,
{
    if n == 0 {
        AnomalyType::SpeedViolation
    } else if n == 1 {
        AnomalyType::RapidAcceleration
    } else if n == 2 {
        AnomalyType::RapidDeceleration
    } else if n == 3 {
        AnomalyType::ErraticMovement
    } else if n == 4 {
        AnomalyType::PositionJump
    } else if n == 5 {
        AnomalyType::SensorInconsistency
    } else if n == 6 {
        AnomalyType::CertificateExpired
    } else if n == 7 {
        AnomalyType::SignatureInvalid
    } else if n == 8 {
        AnomalyType::ReplayAttempt
    } else if n == 9 {
        AnomalyType::FrequencyViolation
    } else if n == 10 {
        AnomalyType::LocationAnomaly
    } else {
        AnomalyType::BehaviorChange
    }
}

/// The place in which `AnomalyType` declares a category, counted from 0.
pub open spec fn place(kind: AnomalyType) -> int {
    match kind {
        AnomalyType::SpeedViolation => 0,
        AnomalyType::RapidAcceleration => 1,
        AnomalyType::RapidDeceleration => 2,
        AnomalyType::ErraticMovement => 3,
        AnomalyType::PositionJump => 4,
        AnomalyType::SensorInconsistency => 5,
        AnomalyType::CertificateExpired => 6,
        AnomalyType::SignatureInvalid => 7,
        AnomalyType::ReplayAttempt => 8,
        AnomalyType::FrequencyViolation => 9,
        AnomalyType::LocationAnomaly => 10,
        AnomalyType::BehaviorChange => 11,
    }
}

/// The name of a category, as its variant is written.
pub open spec fn category_name(kind: AnomalyType) -> Seq<char> {
    match kind {
        AnomalyType::SpeedViolation => "SpeedViolation"@,
        AnomalyType::RapidAcceleration => "RapidAcceleration"@,
        AnomalyType::RapidDeceleration => "RapidDeceleration"@,
        AnomalyType::ErraticMovement => "ErraticMovement"@,
        AnomalyType::PositionJump => "PositionJump"@,
        AnomalyType::SensorInconsistency => "SensorInconsistency"@,
        AnomalyType::CertificateExpired => "CertificateExpired"@,
        AnomalyType::SignatureInvalid => "SignatureInvalid"@,
        AnomalyType::ReplayAttempt => "ReplayAttempt"@,
        AnomalyType::FrequencyViolation => "FrequencyViolation"@,
        AnomalyType::LocationAnomaly => "LocationAnomaly"@,
        AnomalyType::BehaviorChange => "BehaviorChange"@,
    }
}

/// Gives the name of a category.
pub fn name_of(kind: AnomalyType) -> (name: &'static str)
    ensures
        name@ == category_name(kind),
{
    match kind {
        AnomalyType::SpeedViolation => "SpeedViolation",
        AnomalyType::RapidAcceleration => "RapidAcceleration",
        AnomalyType::RapidDeceleration => "RapidDeceleration",
        AnomalyType::ErraticMovement => "ErraticMovement",
        AnomalyType::PositionJump => "PositionJump",
        AnomalyType::SensorInconsistency => "SensorInconsistency",
        AnomalyType::CertificateExpired => "CertificateExpired",
        AnomalyType::SignatureInvalid => "SignatureInvalid",
        AnomalyType::ReplayAttempt => "ReplayAttempt",
        AnomalyType::FrequencyViolation => "FrequencyViolation",
        AnomalyType::LocationAnomaly => "LocationAnomaly",
        AnomalyType::BehaviorChange => "BehaviorChange",
    }
}

/// Trust factors contributing to overall score.
#[derive(Debug, Clone)]
pub struct TrustFactor {
    /// Factor name.
    pub name: String,
    /// Weight in overall calculation (millionths, as configured).
    pub weight: u32,
    /// Individual factor score.
    pub score: TrustScore,
    /// Factor description.
    pub description: String,
    /// Last calculation timestamp.
    pub last_calculation: u64,
}

/// Trust metrics with detailed scoring.
#[derive(Debug, Clone)]
pub struct TrustMetrics {
    /// Overall trust score.
    pub overall_score: TrustScore,
    /// Behavioral trust based on movement patterns.
    pub behavior_score: TrustScore,
    /// Certificate validity and chain trust.
    pub certificate_score: TrustScore,
    /// Historical trust based on past behavior.
    pub history_score: TrustScore,
    /// Trust based on proximity to other trusted vehicles.
    pub proximity_score: TrustScore,
    /// Trust based on sensor data consistency.
    pub sensor_score: TrustScore,
    /// Detailed trust breakdown.
    pub factors: Vec<TrustFactor>,
    /// Trust flags and warnings.
    pub flags: Vec<String>,
    /// Last trust computation.
    pub last_update: u64,
    /// Next scheduled trust update.
    pub next_update: u64,
    /// Anomaly detection score.
    pub anomaly_score: AnomalyScore,
    /// Detected anomalies.
    pub anomalies: Vec<AnomalyType>,
    /// Total anomaly count in last 24 hours.
    pub anomaly_count: u32,
}

/// Security warnings.
#[derive(Debug, Clone, Copy, PartialEq, Eq, Hash, Structural)]
pub enum SecurityWarning {
    /// No security warnings.
    NoWarnings,
    /// Certificate expiring soon.
    CertificateExpiring,
    /// Unusually high message rate.
    HighMessageRate,
    /// Suspicious location pattern.
    SuspiciousLocation,
    /// Behavioral anomaly detected.
    BehaviorAnomaly,
    /// Network traffic anomaly.
    NetworkAnomaly,
    /// Authentication failure.
    AuthenticationFailure,
    /// Authorization violation.
    AuthorizationViolation,
    /// Data integrity issue.
    DataIntegrityIssue,
    /// Privacy violation detected.
    PrivacyViolation,
}

/// Security flags and status.
#[derive(Debug, Clone)]
pub struct SecurityFlags {
    /// Certificate is valid and not expired.
    pub certificate_valid: bool,
    /// Cryptographic signature is valid.
    pub signature_valid: bool,
    /// Message is not a replay.
    pub not_replay: bool,
    /// Message rate is within limits.
    pub rate_limit_ok: bool,
    /// Location is geographically plausible.
    pub location_plausible: bool,
    /// Timestamp is recent and valid.
    pub timestamp_fresh: bool,
    /// Pseudonym is valid for current epoch.
    pub pseudonym_valid: bool,
    /// Security warnings.
    pub warnings: Vec<SecurityWarning>,
    /// Overall threat level (0-10).
    pub threat_level: u32,
    /// Description of current threats.
    pub threat_description: String,
}

/// Network information.
#[derive(Debug, Clone)]
pub struct NetworkInfo {
    /// Network type (DSRC, 4G, 5G, WiFi).
    pub network_type: String,
    /// Network identifier.
    pub network_id: String,
    /// Signal strength (thousandths of dBm).
    pub signal_strength: Option<i32>,
    /// Network latency (microseconds).
    pub latency: Option<u32>,
    /// Available bandwidth (kbit/s).
    pub bandwidth: Option<u32>,
    /// Whether connection is encrypted.
    pub encrypted: bool,
    /// Type of encryption used.
    pub encryption_type: Option<String>,
    /// Number of retry attempts.
    pub retry_count: u32,
    /// Last network change timestamp.
    pub last_network_change: u64,
}

/// Emergency vehicle types.
#[derive(Debug, Clone, Copy, PartialEq, Eq, Hash, Structural)]
pub enum EmergencyType {
    NotEmergency,
    Police,
    Fire,
    Ambulance,
    Rescue,
    Military,
    Government,
    CivilDefense,
}

/// Complete vehicle position message.
#[derive(Debug, Clone)]
pub struct VehiclePosition {
    /// Ephemeral pseudonym (rotates every 5 minutes).
    pub vehicle_id: VehicleId,
    /// X.509 certificate identifier for PKI validation.
    pub certificate_id: Option<String>,
    /// Roadside unit identifier that received the message.
    pub rsu_id: Option<String>,
    /// 3D positioning with accuracy metrics.
    pub position: Position,
    /// 3D velocity vector.
    pub velocity: Option<Velocity>,
    /// Heading from true north (millidegrees).
    pub heading: Option<u32>,
    /// Speed measurement accuracy (mm/s).
    pub speed_accuracy: Option<u32>,
    /// When the report was made.
    pub timestamp: Timestamp,
    /// Monotonic sequence number for replay protection.
    pub sequence: u64,
    /// Epoch number for pseudonym rotation.
    pub epoch: u64,
    /// Vehicle metadata and capabilities.
    pub metadata: Option<VehicleMetadata>,
    /// Sensor readings.
    pub sensors: Vec<SensorReading>,
    /// Vehicle capabilities.
    pub capabilities: Vec<Capability>,
    /// Trust and security metrics.
    pub trust: Option<TrustMetrics>,
    /// Security flags and status.
    pub security: Option<SecurityFlags>,
    /// Network and routing information.
    pub network: Option<NetworkInfo>,
    /// Route waypoints.
    pub route_waypoints: Vec<String>,
    /// Whether this is an emergency vehicle.
    pub emergency_vehicle: bool,
    /// Emergency vehicle type.
    pub emergency_type: EmergencyType,
    /// Priority level.
    pub priority_level: u32,
}

/// Cluster types.
#[derive(Debug, Clone, Copy, PartialEq, Eq, Hash, Structural)]
pub enum ClusterType {
    TrafficJam,
    Convoy,
    Parking,
    Intersection,
    TollBooth,
    AccidentScene,
    Construction,
    SpecialEvent,
}

/// Vehicle cluster for traffic analysis.
#[derive(Debug, Clone)]
pub struct VehicleCluster {
    /// Cluster center position.
    pub center: Position,
    /// Number of vehicles in cluster.
    pub count: u32,
    /// Average speed of cluster (mm/s).
    pub avg_speed: u32,
    /// Vehicle density (vehicles per 1000 km²).
    pub density: u32,
    /// IDs of vehicles in cluster.
    pub vehicle_ids: Vec<VehicleId>,
    /// Type of cluster.
    pub cluster_type: ClusterType,
    /// Cluster radius (mm).
    pub radius: u32,
    /// When cluster formed.
    pub formation_time: u64,
    /// Last cluster update.
    pub last_update: u64,
}

/// Trust score update.
#[derive(Debug, Clone)]
pub struct TrustScoreUpdate {
    /// Vehicle identifier.
    pub vehicle_id: VehicleId,
    /// Trust score.
    pub score: TrustScore,
    /// Reason for score change.
    pub reason: String,
    /// When score was computed.
    pub timestamp: Timestamp,
    /// Factors contributing to score.
    pub factors: Vec<String>,
    /// Previous trust score.
    pub previous_score: TrustScore,
    /// Score change from previous (millionths, signed).
    pub change: i64,
}

/// Service status enumeration.
#[derive(Debug, Clone, Copy, PartialEq, Eq, Hash, Structural)]
pub enum ServiceStatus {
    Unknown,
    Starting,
    Running,
    Degraded,
    Stopping,
    Stopped,
    Error,
    Maintenance,
}

/// System status message.
#[derive(Debug, Clone)]
pub struct SystemStatus {
    /// Service identifier.
    pub service_id: String,
    /// Current service status.
    pub status: ServiceStatus,
    /// Service version.
    pub version: String,
    /// Service uptime in seconds.
    pub uptime: u64,
    /// CPU usage (millionths of full load).
    pub cpu_usage: u32,
    /// Memory usage (millionths of capacity).
    pub memory_usage: u32,
    /// Disk usage (millionths of capacity).
    pub disk_usage: u32,
    /// Active connection types.
    pub active_connections: Vec<String>,
    /// Recent errors.
    pub errors: Vec<String>,
    /// Status timestamp.
    pub timestamp: Timestamp,
}

/// Alert types.
#[derive(Debug, Clone, Copy, PartialEq, Eq, Hash, Structural)]
pub enum AlertType {
    Security,
    Traffic,
    System,
    Maintenance,
    Emergency,
    Weather,
    Infrastructure,
    Compliance,
}

/// Alert severity levels.
#[derive(Debug, Clone, Copy, PartialEq, Eq, Hash, Structural)]
pub enum AlertSeverity {
    Info,
    Low,
    Medium,
    High,
    Critical,
    Emergency,
}

/// Alert message for security and system events.
#[derive(Debug, Clone)]
pub struct Alert {
    /// Unique alert identifier.
    pub alert_id: String,
    /// Type of alert.
    pub alert_type: AlertType,
    /// Alert severity level.
    pub severity: AlertSeverity,
    /// Alert title.
    pub title: String,
    /// Alert description.
    pub description: String,
    /// Related vehicle (if applicable).
    pub vehicle_id: Option<VehicleId>,
    /// Alert location.
    pub location: Option<Position>,
    /// When alert was generated.
    pub timestamp: Timestamp,
    /// Alert tags for categorization.
    pub tags: Vec<String>,
    /// Whether alert has been acknowledged.
    pub acknowledged: bool,
    /// Who acknowledged the alert.
    pub acknowledged_by: Option<String>,
    /// When alert was acknowledged.
    pub acknowledged_at: Option<u64>,
}

} // verus!
