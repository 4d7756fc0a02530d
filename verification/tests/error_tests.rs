use geovan::config::ConfigError;
use geovan::error::AuthenticationError;
use geovan::error::AuthorizationError;
use geovan::error::BusinessLogicError;
use geovan::error::CryptographicError;
use geovan::error::ExternalServiceError;
use geovan::error::GeoVANError;
use geovan::error::IntoGeoVANError;
use geovan::error::NetworkError;
use geovan::error::ResourceError;
use geovan::error::SecurityError;
use geovan::error::ValidationError;

#[test]
fn test_error_code() {
    let error = GeoVANError::Validation(ValidationError::RequiredFieldMissing("test".to_string()));
    assert_eq!(error.error_code(), "VALIDATION_ERROR");
}

#[test]
fn test_http_status_code() {
    let error = GeoVANError::Authentication(AuthenticationError::InvalidCredentials);
    assert_eq!(error.http_status_code(), 401);
}

#[test]
fn test_is_security_error() {
    let error = GeoVANError::Security(SecurityError::InvalidSignature("test".to_string()));
    assert!(error.is_security_error());

    let error = GeoVANError::Generic("test".to_string());
    assert!(!error.is_security_error());
}

#[test]
fn test_is_recoverable() {
    let error = GeoVANError::Timeout("test".to_string());
    assert!(error.is_recoverable());

    let error = GeoVANError::Generic("test".to_string());
    assert!(!error.is_recoverable());
}

fn one_of_each() -> Vec<(GeoVANError, &'static str, u16)> {
    let json_error = serde_json::from_str::<u32>("not json").unwrap_err();
    vec![
        (
            GeoVANError::Config(ConfigError::ValidationError("bad".to_string())),
            "CONFIG_ERROR",
            500,
        ),
        (GeoVANError::Database(sqlx::Error::RowNotFound), "DATABASE_ERROR", 503),
        (
            GeoVANError::Redis(redis::RedisError::from(std::io::Error::other("down"))),
            "REDIS_ERROR",
            503,
        ),
        (
            GeoVANError::RabbitMQ(lapin::Error::from(std::io::Error::other("down"))),
            "RABBITMQ_ERROR",
            503,
        ),
        (
            GeoVANError::Security(SecurityError::TrustScoreTooLow(100_000)),
            "SECURITY_ERROR",
            403,
        ),
        (
            GeoVANError::Authentication(AuthenticationError::TwoFactorRequired),
            "AUTHENTICATION_ERROR",
            401,
        ),
        (
            GeoVANError::Authorization(AuthorizationError::RoleRequired("admin".to_string())),
            "AUTHORIZATION_ERROR",
            403,
        ),
        (
            GeoVANError::Validation(ValidationError::InvalidUuid("x".to_string())),
            "VALIDATION_ERROR",
            400,
        ),
        (GeoVANError::Serialization(json_error), "SERIALIZATION_ERROR", 400),
        (
            GeoVANError::Cryptographic(CryptographicError::KeySizeTooSmall(8)),
            "CRYPTOGRAPHIC_ERROR",
            403,
        ),
        (
            GeoVANError::Network(NetworkError::MessageTooLarge(1 << 20)),
            "NETWORK_ERROR",
            503,
        ),
        (GeoVANError::RateLimit("slow down".to_string()), "RATE_LIMIT_ERROR", 429),
        (GeoVANError::Timeout("late".to_string()), "TIMEOUT_ERROR", 408),
        (
            GeoVANError::BusinessLogic(BusinessLogicError::DomainError("no".to_string())),
            "BUSINESS_LOGIC_ERROR",
            422,
        ),
        (
            GeoVANError::ExternalService(ExternalServiceError::QuotaExceeded("q".to_string())),
            "EXTERNAL_SERVICE_ERROR",
            502,
        ),
        (GeoVANError::Io(std::io::Error::other("disk")), "IO_ERROR", 500),
        (GeoVANError::Generic("g".to_string()), "GENERIC_ERROR", 500),
        (GeoVANError::Unknown, "UNKNOWN_ERROR", 500),
    ]
}

#[test]
fn every_variant_has_its_code_and_status() {
    for (error, code, status) in one_of_each() {
        assert_eq!(error.error_code(), code);
        assert_eq!(error.http_status_code(), status);
    }
}

#[test]
fn resource_errors_answer_by_kind() {
    let cases: Vec<(ResourceError, u16)> = vec![
        (ResourceError::NotFound("r".to_string()), 404),
        (ResourceError::AlreadyExists("r".to_string()), 409),
        (ResourceError::InUse("r".to_string()), 423),
        (ResourceError::Exhausted("r".to_string()), 507),
        (ResourceError::Locked("r".to_string()), 423),
        (ResourceError::Corrupted("r".to_string()), 500),
        (ResourceError::AccessDenied("r".to_string()), 403),
        (ResourceError::Timeout("r".to_string()), 408),
        (ResourceError::Unavailable("r".to_string()), 503),
    ];
    for (cause, status) in cases {
        let error = GeoVANError::Resource(cause);
        assert_eq!(error.error_code(), "RESOURCE_ERROR");
        assert_eq!(error.http_status_code(), status);
    }
}

#[test]
fn protobuf_errors_are_bad_requests() {
    // An empty buffer cannot hold the varint that a length prefix starts with.
    let cause = prost::decode_length_delimiter(&[][..]).unwrap_err();
    let error = GeoVANError::from(cause);
    assert_eq!(error.error_code(), "PROTOBUF_ERROR");
    assert_eq!(error.http_status_code(), 400);
}

#[test]
fn security_errors_are_three_kinds() {
    for (error, _, _) in one_of_each() {
        let expected = matches!(
            error,
            GeoVANError::Security(_) | GeoVANError::Authentication(_) | GeoVANError::Authorization(_)
        );
        assert_eq!(error.is_security_error(), expected);
    }
}

#[test]
fn network_errors_are_two_kinds() {
    for (error, _, _) in one_of_each() {
        let expected = matches!(error, GeoVANError::Network(_) | GeoVANError::ExternalService(_));
        assert_eq!(error.is_network_error(), expected);
    }
}

#[test]
fn only_timeouts_and_rate_limits_are_recoverable() {
    for (error, _, _) in one_of_each() {
        let expected = matches!(error, GeoVANError::Timeout(_) | GeoVANError::RateLimit(_));
        assert_eq!(error.is_recoverable(), expected);
    }
    assert!(GeoVANError::Resource(ResourceError::Timeout("lock".to_string())).is_recoverable());
    assert!(!GeoVANError::Resource(ResourceError::Locked("lock".to_string())).is_recoverable());
}

#[test]
fn constructors_carry_their_text() {
    match GeoVANError::generic("boom") {
        GeoVANError::Generic(text) => assert_eq!(text, "boom"),
        other => panic!("unexpected {:?}", other),
    }
    match GeoVANError::field_validation("lat", "out of range") {
        GeoVANError::Validation(ValidationError::FieldValidation { field, message }) => {
            assert_eq!(field, "lat");
            assert_eq!(message, "out of range");
        }
        other => panic!("unexpected {:?}", other),
    }
    match GeoVANError::business_logic("no refunds") {
        GeoVANError::BusinessLogic(BusinessLogicError::BusinessRuleViolation(text)) => {
            assert_eq!(text, "no refunds")
        }
        other => panic!("unexpected {:?}", other),
    }
}

#[test]
fn causes_convert_into_their_variant() {
    assert!(matches!(GeoVANError::from(sqlx::Error::PoolClosed), GeoVANError::Database(_)));
    assert!(matches!(
        GeoVANError::from(std::io::Error::other("io")),
        GeoVANError::Io(_)
    ));
    assert!(matches!(
        GeoVANError::from(serde_json::from_str::<bool>("7").unwrap_err()),
        GeoVANError::Serialization(_)
    ));
    assert!(matches!(
        GeoVANError::from(ConfigError::LoadError("missing".to_string())),
        GeoVANError::Config(ConfigError::LoadError(_))
    ));
    assert!(matches!(
        GeoVANError::from(SecurityError::ReplayAttack("seq 5".to_string())),
        GeoVANError::Security(SecurityError::ReplayAttack(_))
    ));
    assert!(matches!(
        GeoVANError::from(NetworkError::ConnectionClosed("peer".to_string())),
        GeoVANError::Network(NetworkError::ConnectionClosed(_))
    ));
    assert!(matches!(
        GeoVANError::from(redis::RedisError::from(std::io::Error::other("r"))),
        GeoVANError::Redis(_)
    ));
    assert!(matches!(
        GeoVANError::from(lapin::Error::from(std::io::Error::other("l"))),
        GeoVANError::RabbitMQ(_)
    ));
}

#[test]
fn foreign_results_become_platform_results() {
    let parsed: Result<u32, std::num::ParseIntError> = "42".parse::<u32>();
    assert_eq!(parsed.into_geovan_error().unwrap(), 42);

    let failed: Result<u32, std::num::ParseIntError> = "forty-two".parse::<u32>();
    match failed.into_geovan_error() {
        Err(GeoVANError::Generic(text)) => assert_eq!(text, "invalid digit found in string"),
        other => panic!("unexpected {:?}", other),
    }
}
