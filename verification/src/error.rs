//! The error taxonomy of the platform, with the code and the HTTP status
//! under which each error is reported.

use vstd::prelude::*;
use vstd::std_specs::convert::FromSpecImpl;
use vstd::string::StringExecFns;
use vstd::string::to_string_from_display_ensures;
use crate::config::ConfigError;
use crate::model::TrustScore;

verus! {

/// Security-related errors.
#[derive(Debug)]
pub enum SecurityError {
    InvalidSignature(String),
    CertificateValidation(String),
    CertificateExpired(String),
    CertificateRevoked(String),
    InvalidCertificateChain(String),
    EncryptionFailed(String),
    DecryptionFailed(String),
    HashVerificationFailed(String),
    ReplayAttack(String),
    InvalidNonce(String),
    KeyNotFound(String),
    InvalidKeyFormat(String),
    /// The score that was found too low.
    TrustScoreTooLow(TrustScore),
    AnomalyDetected(String),
    ThreatDetected(String),
}

/// Authentication errors.
#[derive(Debug)]
pub enum AuthenticationError {
    InvalidCredentials,
    UserNotFound(String),
    AccountLocked(String),
    TokenExpired(String),
    InvalidToken(String),
    TokenRefreshFailed(String),
    TooManyLoginAttempts,
    PasswordTooWeak(String),
    TwoFactorRequired,
    TwoFactorFailed,
}

/// Authorization errors.
#[derive(Debug)]
pub enum AuthorizationError {
    InsufficientPermissions(String),
    RoleRequired(String),
    ResourceAccessDenied(String),
    OperationNotAllowed(String),
    ScopeRequired(String),
    ApiKeyInvalid(String),
    UserRateLimitExceeded(String),
}

/// Validation errors.
#[derive(Debug)]
pub enum ValidationError {
    FieldValidation { field: String, message: String },
    RequiredFieldMissing(String),
    InvalidFormat { field: String, format: String },
    ValueOutOfRange { field: String, value: String, min: String, max: String },
    InvalidEnumValue { field: String, value: String },
    StringTooLong { field: String, length: usize, max: usize },
    StringTooShort { field: String, length: usize, min: usize },
    InvalidEmail(String),
    InvalidUrl(String),
    InvalidPhone(String),
    InvalidUuid(String),
    InvalidDate(String),
    InvalidJson(String),
}

/// Cryptographic errors.
#[derive(Debug)]
pub enum CryptographicError {
    KeyGenerationFailed(String),
    KeyImportFailed(String),
    KeyExportFailed(String),
    SigningFailed(String),
    VerificationFailed(String),
    RandomGenerationFailed(String),
    HashComputationFailed(String),
    InvalidAlgorithm(String),
    KeySizeTooSmall(usize),
    KeySizeTooLarge(usize),
}

/// Network errors.
#[derive(Debug)]
pub enum NetworkError {
    ConnectionFailed(String),
    ConnectionTimeout(String),
    ConnectionClosed(String),
    NetworkUnreachable(String),
    HostUnreachable(String),
    DnsResolutionFailed(String),
    TlsHandshakeFailed(String),
    CertificateVerificationFailed(String),
    ProtocolError(String),
    MessageTooLarge(usize),
    InvalidMessageFormat(String),
}

/// Resource errors.
#[derive(Debug)]
pub enum ResourceError {
    NotFound(String),
    AlreadyExists(String),
    InUse(String),
    Exhausted(String),
    Locked(String),
    Corrupted(String),
    AccessDenied(String),
    Timeout(String),
    Unavailable(String),
}

/// Business logic errors.
#[derive(Debug)]
pub enum BusinessLogicError {
    InvalidStateTransition { from: String, to: String },
    BusinessRuleViolation(String),
    ConstraintViolation(String),
    WorkflowError(String),
    ValidationRuleFailed(String),
    BusinessProcessError(String),
    DomainError(String),
}

/// Errors reported by services outside the platform.
#[derive(Debug)]
pub enum ExternalServiceError {
    ServiceUnavailable(String),
    ServiceTimeout(String),
    ServiceError(String),
    AuthenticationFailed(String),
    AuthorizationFailed(String),
    RateLimitExceeded(String),
    QuotaExceeded(String),
    InvalidResponse(String),
    NetworkError(String),
}

/// Main error type of the platform.
#[derive(Debug)]
pub enum GeoVANError {
    /// Configuration errors.
    Config(ConfigError),
    /// Database errors.
    Database(sqlx::Error),
    /// Redis errors.
    Redis(redis::RedisError),
    /// RabbitMQ errors.
    RabbitMQ(lapin::Error),
    /// Security errors.
    Security(SecurityError),
    /// Authentication errors.
    Authentication(AuthenticationError),
    /// Authorization errors.
    Authorization(AuthorizationError),
    /// Validation errors.
    Validation(ValidationError),
    /// Serialization errors.
    Serialization(serde_json::Error),
    /// Protocol buffer errors.
    Protobuf(prost::DecodeError),
    /// Cryptographic errors.
    Cryptographic(CryptographicError),
    /// Network errors.
    Network(NetworkError),
    /// Rate limiting errors.
    RateLimit(String),
    /// Timeout errors.
    Timeout(String),
    /// Resource errors.
    Resource(ResourceError),
    /// Business logic errors.
    BusinessLogic(BusinessLogicError),
    /// External service errors.
    ExternalService(ExternalServiceError),
    /// IO errors.
    Io(std::io::Error),
    /// Generic errors.
    Generic(String),
    /// Unknown errors.
    Unknown,
}

/// Result type for platform operations.
pub type Result<T> = std::result::Result<T, GeoVANError>;

impl GeoVANError {
    /// The code under which the API reports the error: one per variant.
    pub open spec fn code(&self) -> Seq<char> {
        match self {
            GeoVANError::Config(_) => "CONFIG_ERROR"@,
            GeoVANError::Database(_) => "DATABASE_ERROR"@,
            GeoVANError::Redis(_) => "REDIS_ERROR"@,
            GeoVANError::RabbitMQ(_) => "RABBITMQ_ERROR"@,
            GeoVANError::Security(_) => "SECURITY_ERROR"@,
            GeoVANError::Authentication(_) => "AUTHENTICATION_ERROR"@,
            GeoVANError::Authorization(_) => "AUTHORIZATION_ERROR"@,
            GeoVANError::Validation(_) => "VALIDATION_ERROR"@,
            GeoVANError::Serialization(_) => "SERIALIZATION_ERROR"@,
            GeoVANError::Protobuf(_) => "PROTOBUF_ERROR"@,
            GeoVANError::Cryptographic(_) => "CRYPTOGRAPHIC_ERROR"@,
            GeoVANError::Network(_) => "NETWORK_ERROR"@,
            GeoVANError::RateLimit(_) => "RATE_LIMIT_ERROR"@,
            GeoVANError::Timeout(_) => "TIMEOUT_ERROR"@,
            GeoVANError::Resource(_) => "RESOURCE_ERROR"@,
            GeoVANError::BusinessLogic(_) => "BUSINESS_LOGIC_ERROR"@,
            GeoVANError::ExternalService(_) => "EXTERNAL_SERVICE_ERROR"@,
            GeoVANError::Io(_) => "IO_ERROR"@,
            GeoVANError::Generic(_) => "GENERIC_ERROR"@,
            GeoVANError::Unknown => "UNKNOWN_ERROR"@,
        }
    }

    /// The HTTP status with which the API answers the error. A resource
    /// error answers by its kind; every other error by its variant.
    pub open spec fn status(&self) -> int {
        match self {
            GeoVANError::Config(_) => 500,
            GeoVANError::Database(_) => 503,
            GeoVANError::Redis(_) => 503,
            GeoVANError::RabbitMQ(_) => 503,
            GeoVANError::Security(_) => 403,
            GeoVANError::Authentication(_) => 401,
            GeoVANError::Authorization(_) => 403,
            GeoVANError::Validation(_) => 400,
            GeoVANError::Serialization(_) => 400,
            GeoVANError::Protobuf(_) => 400,
            GeoVANError::Cryptographic(_) => 403,
            GeoVANError::Network(_) => 503,
            GeoVANError::RateLimit(_) => 429,
            GeoVANError::Timeout(_) => 408,
            GeoVANError::Resource(ResourceError::NotFound(_)) => 404,
            GeoVANError::Resource(ResourceError::AlreadyExists(_)) => 409,
            GeoVANError::Resource(ResourceError::InUse(_)) => 423,
            GeoVANError::Resource(ResourceError::Exhausted(_)) => 507,
            GeoVANError::Resource(ResourceError::Locked(_)) => 423,
            GeoVANError::Resource(ResourceError::Corrupted(_)) => 500,
            GeoVANError::Resource(ResourceError::AccessDenied(_)) => 403,
            GeoVANError::Resource(ResourceError::Timeout(_)) => 408,
            GeoVANError::Resource(ResourceError::Unavailable(_)) => 503,
            GeoVANError::BusinessLogic(_) => 422,
            GeoVANError::ExternalService(_) => 502,
            GeoVANError::Io(_) => 500,
            GeoVANError::Generic(_) => 500,
            GeoVANError::Unknown => 500,
        }
    }

    /// Create a generic error with a message.
    pub fn generic(message: &str) -> (e: Self)
        ensures
            e matches GeoVANError::Generic(text) && text@ == message@,
    {
        GeoVANError::Generic(String::from_str(message))
    }

    /// Create a validation error for a field.
    pub fn field_validation(field: &str, message: &str) -> (e: Self)
        ensures
            e matches GeoVANError::Validation(ValidationError::FieldValidation { field: f, message: m })
                && f@ == field@ && m@ == message@,
    {
        GeoVANError::Validation(
            ValidationError::FieldValidation {
                field: String::from_str(field),
                message: String::from_str(message),
            },
        )
    }

    /// Create a business logic error.
    pub fn business_logic(message: &str) -> (e: Self)
        ensures
            e matches GeoVANError::BusinessLogic(BusinessLogicError::BusinessRuleViolation(text))
                && text@ == message@,
    {
        GeoVANError::BusinessLogic(
            BusinessLogicError::BusinessRuleViolation(String::from_str(message)),
        )
    }

    /// Check if the error is a security-related error.
    pub fn is_security_error(&self) -> (b: bool)
        ensures
            b == (self is Security || self is Authentication || self is Authorization),
    {
        match self {
            GeoVANError::Security(_) => true,
            GeoVANError::Authentication(_) => true,
            GeoVANError::Authorization(_) => true,
            _ => false,
        }
    }

    /// Check if the error is a network-related error.
    pub fn is_network_error(&self) -> (b: bool)
        ensures
            b == (self is Network || self is ExternalService),
    {
        match self {
            GeoVANError::Network(_) => true,
            GeoVANError::ExternalService(_) => true,
            _ => false,
        }
    }

    /// Check if the error is recoverable: a timeout, of the operation or of
    /// a resource, or an exceeded rate limit.
    pub fn is_recoverable(&self) -> (b: bool)
        ensures
            b == (self is Timeout || self is RateLimit
                || (self matches GeoVANError::Resource(cause) && cause is Timeout)),
    {
        match self {
            GeoVANError::Timeout(_) => true,
            GeoVANError::RateLimit(_) => true,
            GeoVANError::Resource(ResourceError::Timeout(_)) => true,
            _ => false,
        }
    }

    /// Get the error code for API responses.
    pub fn error_code(&self) -> (code: &'static str)
        ensures
            code@ == self.code(),
    {
        match self {
            GeoVANError::Config(_) => "CONFIG_ERROR",
            GeoVANError::Database(_) => "DATABASE_ERROR",
            GeoVANError::Redis(_) => "REDIS_ERROR",
            GeoVANError::RabbitMQ(_) => "RABBITMQ_ERROR",
            GeoVANError::Security(_) => "SECURITY_ERROR",
            GeoVANError::Authentication(_) => "AUTHENTICATION_ERROR",
            GeoVANError::Authorization(_) => "AUTHORIZATION_ERROR",
            GeoVANError::Validation(_) => "VALIDATION_ERROR",
            GeoVANError::Serialization(_) => "SERIALIZATION_ERROR",
            GeoVANError::Protobuf(_) => "PROTOBUF_ERROR",
            GeoVANError::Cryptographic(_) => "CRYPTOGRAPHIC_ERROR",
            GeoVANError::Network(_) => "NETWORK_ERROR",
            GeoVANError::RateLimit(_) => "RATE_LIMIT_ERROR",
            GeoVANError::Timeout(_) => "TIMEOUT_ERROR",
            GeoVANError::Resource(_) => "RESOURCE_ERROR",
            GeoVANError::BusinessLogic(_) => "BUSINESS_LOGIC_ERROR",
            GeoVANError::ExternalService(_) => "EXTERNAL_SERVICE_ERROR",
            GeoVANError::Io(_) => "IO_ERROR",
            GeoVANError::Generic(_) => "GENERIC_ERROR",
            GeoVANError::Unknown => "UNKNOWN_ERROR",
        }
    }

    /// Get the HTTP status code for the error.
    pub fn http_status_code(&self) -> (status: u16)
        ensures
            status == self.status(),
    {
        match self {
            GeoVANError::Config(_) => 500,
            GeoVANError::Database(_) => 503,
            GeoVANError::Redis(_) => 503,
            GeoVANError::RabbitMQ(_) => 503,
            GeoVANError::Security(_) => 403,
            GeoVANError::Authentication(_) => 401,
            GeoVANError::Authorization(_) => 403,
            GeoVANError::Validation(_) => 400,
            GeoVANError::Serialization(_) => 400,
            GeoVANError::Protobuf(_) => 400,
            GeoVANError::Cryptographic(_) => 403,
            GeoVANError::Network(_) => 503,
            GeoVANError::RateLimit(_) => 429,
            GeoVANError::Timeout(_) => 408,
            GeoVANError::Resource(cause) => match cause {
                ResourceError::NotFound(_) => 404,
                ResourceError::AlreadyExists(_) => 409,
                ResourceError::InUse(_) => 423,
                ResourceError::Exhausted(_) => 507,
                ResourceError::Locked(_) => 423,
                ResourceError::Corrupted(_) => 500,
                ResourceError::AccessDenied(_) => 403,
                ResourceError::Timeout(_) => 408,
                ResourceError::Unavailable(_) => 503,
            },
            GeoVANError::BusinessLogic(_) => 422,
            GeoVANError::ExternalService(_) => 502,
            GeoVANError::Io(_) => 500,
            GeoVANError::Generic(_) => 500,
            GeoVANError::Unknown => 500,
        }
    }
}

/// Wraps a configuration error.
impl From<ConfigError> for GeoVANError {
    fn from(cause: ConfigError) -> (e: Self) {
        GeoVANError::Config(cause)
    }
}

impl FromSpecImpl<ConfigError> for GeoVANError {
    open spec fn obeys_from_spec() -> bool {
        true
    }

    open spec fn from_spec(cause: ConfigError) -> Self {
        GeoVANError::Config(cause)
    }
}

/// Wraps a database error.
impl From<sqlx::Error> for GeoVANError {
    fn from(cause: sqlx::Error) -> (e: Self) {
        GeoVANError::Database(cause)
    }
}

impl FromSpecImpl<sqlx::Error> for GeoVANError {
    open spec fn obeys_from_spec() -> bool {
        true
    }

    open spec fn from_spec(cause: sqlx::Error) -> Self {
        GeoVANError::Database(cause)
    }
}

/// Wraps a Redis error.
impl From<redis::RedisError> for GeoVANError {
    fn from(cause: redis::RedisError) -> (e: Self) {
        GeoVANError::Redis(cause)
    }
}

impl FromSpecImpl<redis::RedisError> for GeoVANError {
    open spec fn obeys_from_spec() -> bool {
        true
    }

    open spec fn from_spec(cause: redis::RedisError) -> Self {
        GeoVANError::Redis(cause)
    }
}

/// Wraps a RabbitMQ error.
impl From<lapin::Error> for GeoVANError {
    fn from(cause: lapin::Error) -> (e: Self) {
        GeoVANError::RabbitMQ(cause)
    }
}

impl FromSpecImpl<lapin::Error> for GeoVANError {
    open spec fn obeys_from_spec() -> bool {
        true
    }

    open spec fn from_spec(cause: lapin::Error) -> Self {
        GeoVANError::RabbitMQ(cause)
    }
}

/// Wraps a security error.
impl From<SecurityError> for GeoVANError {
    fn from(cause: SecurityError) -> (e: Self) {
        GeoVANError::Security(cause)
    }
}

impl FromSpecImpl<SecurityError> for GeoVANError {
    open spec fn obeys_from_spec() -> bool {
        true
    }

    open spec fn from_spec(cause: SecurityError) -> Self {
        GeoVANError::Security(cause)
    }
}

/// Wraps an authentication error.
impl From<AuthenticationError> for GeoVANError {
    fn from(cause: AuthenticationError) -> (e: Self) {
        GeoVANError::Authentication(cause)
    }
}

impl FromSpecImpl<AuthenticationError> for GeoVANError {
    open spec fn obeys_from_spec() -> bool {
        true
    }

    open spec fn from_spec(cause: AuthenticationError) -> Self {
        GeoVANError::Authentication(cause)
    }
}

/// Wraps an authorization error.
impl From<AuthorizationError> for GeoVANError {
    fn from(cause: AuthorizationError) -> (e: Self) {
        GeoVANError::Authorization(cause)
    }
}

impl FromSpecImpl<AuthorizationError> for GeoVANError {
    open spec fn obeys_from_spec() -> bool {
        true
    }

    open spec fn from_spec(cause: AuthorizationError) -> Self {
        GeoVANError::Authorization(cause)
    }
}

/// Wraps a validation error.
impl From<ValidationError> for GeoVANError {
    fn from(cause: ValidationError) -> (e: Self) {
        GeoVANError::Validation(cause)
    }
}

impl FromSpecImpl<ValidationError> for GeoVANError {
    open spec fn obeys_from_spec() -> bool {
        true
    }

    open spec fn from_spec(cause: ValidationError) -> Self {
        GeoVANError::Validation(cause)
    }
}

/// Wraps a serialization error.
impl From<serde_json::Error> for GeoVANError {
    fn from(cause: serde_json::Error) -> (e: Self) {
        GeoVANError::Serialization(cause)
    }
}

impl FromSpecImpl<serde_json::Error> for GeoVANError {
    open spec fn obeys_from_spec() -> bool {
        true
    }

    open spec fn from_spec(cause: serde_json::Error) -> Self {
        GeoVANError::Serialization(cause)
    }
}

/// Wraps a protocol buffer error.
impl From<prost::DecodeError> for GeoVANError {
    fn from(cause: prost::DecodeError) -> (e: Self) {
        GeoVANError::Protobuf(cause)
    }
}

impl FromSpecImpl<prost::DecodeError> for GeoVANError {
    open spec fn obeys_from_spec() -> bool {
        true
    }

    open spec fn from_spec(cause: prost::DecodeError) -> Self {
        GeoVANError::Protobuf(cause)
    }
}

/// Wraps a cryptographic error.
impl From<CryptographicError> for GeoVANError {
    fn from(cause: CryptographicError) -> (e: Self) {
        GeoVANError::Cryptographic(cause)
    }
}

impl FromSpecImpl<CryptographicError> for GeoVANError {
    open spec fn obeys_from_spec() -> bool {
        true
    }

    open spec fn from_spec(cause: CryptographicError) -> Self {
        GeoVANError::Cryptographic(cause)
    }
}

/// Wraps a network error.
impl From<NetworkError> for GeoVANError {
    fn from(cause: NetworkError) -> (e: Self) {
        GeoVANError::Network(cause)
    }
}

impl FromSpecImpl<NetworkError> for GeoVANError {
    open spec fn obeys_from_spec() -> bool {
        true
    }

    open spec fn from_spec(cause: NetworkError) -> Self {
        GeoVANError::Network(cause)
    }
}

/// Wraps a resource error.
impl From<ResourceError> for GeoVANError {
    fn from(cause: ResourceError) -> (e: Self) {
        GeoVANError::Resource(cause)
    }
}

impl FromSpecImpl<ResourceError> for GeoVANError {
    open spec fn obeys_from_spec() -> bool {
        true
    }

    open spec fn from_spec(cause: ResourceError) -> Self {
        GeoVANError::Resource(cause)
    }
}

/// Wraps a business logic error.
impl From<BusinessLogicError> for GeoVANError {
    fn from(cause: BusinessLogicError) -> (e: Self) {
        GeoVANError::BusinessLogic(cause)
    }
}

impl FromSpecImpl<BusinessLogicError> for GeoVANError {
    open spec fn obeys_from_spec() -> bool {
        true
    }

    open spec fn from_spec(cause: BusinessLogicError) -> Self {
        GeoVANError::BusinessLogic(cause)
    }
}

/// Wraps an external service error.
impl From<ExternalServiceError> for GeoVANError {
    fn from(cause: ExternalServiceError) -> (e: Self) {
        GeoVANError::ExternalService(cause)
    }
}

impl FromSpecImpl<ExternalServiceError> for GeoVANError {
    open spec fn obeys_from_spec() -> bool {
        true
    }

    open spec fn from_spec(cause: ExternalServiceError) -> Self {
        GeoVANError::ExternalService(cause)
    }
}

/// Wraps an IO error.
impl From<std::io::Error> for GeoVANError {
    fn from(cause: std::io::Error) -> (e: Self) {
        GeoVANError::Io(cause)
    }
}

impl FromSpecImpl<std::io::Error> for GeoVANError {
    open spec fn obeys_from_spec() -> bool {
        true
    }

    open spec fn from_spec(cause: std::io::Error) -> Self {
        GeoVANError::Io(cause)
    }
}

/// Conversion of a foreign result into a platform result.
pub trait IntoGeoVANError<T> {
    fn into_geovan_error(self) -> Result<T>;
}

impl<T, E: std::fmt::Display> IntoGeoVANError<T> for std::result::Result<T, E> {
    /// Keeps a success as it is and turns a failure into a generic error
    /// whose message is the text that the failure displays.
    fn into_geovan_error(self) -> (r: Result<T>)
        ensures
            match self {
                Ok(value) => r == Ok::<T, GeoVANError>(value),
                Err(cause) => r matches Err(GeoVANError::Generic(text))
                    && to_string_from_display_ensures::<E>(&cause, text),
            },
    {
        match self {
            Ok(value) => Ok(value),
            Err(cause) => Err(GeoVANError::Generic(cause.to_string())),
        }
    }
}

} // verus!
