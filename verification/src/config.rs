//! Platform configuration: the settings record, its defaults and the rules a
//! loaded configuration has to meet before the services start.

use vstd::prelude::*;
use vstd::string::StringExecFns;
use crate::outside::logical_cpu_count;

verus! {

/// Why a configuration could not be used.
#[derive(Debug)]
pub enum ConfigError {
    /// The configuration sources could not be read or decoded; the text is
    /// the loader's report.
    LoadError(String),
    /// A value breaks one of the rules; the text names the rule.
    ValidationError(String),
}

/// A span of time: whole seconds and the nanoseconds beyond them.
#[derive(Debug, Clone, Copy, PartialEq, Eq, Structural)]
pub struct Duration {
    pub secs: u64,
    /// Below one second for a value made by `from_secs` or `from_millis`.
    pub nanos: u32,
}

/// Nanoseconds in one second.
pub const NANOS_PER_SEC: u32 = 1_000_000_000;

impl Duration {
    /// The span in nanoseconds.
    pub open spec fn total_nanos(&self) -> int {
        self.secs * (NANOS_PER_SEC as int) + self.nanos
    }

    /// A span of `secs` whole seconds.
    pub fn from_secs(secs: u64) -> (d: Duration)
        ensures
            d.secs == secs,
            d.nanos == 0,
    {
        Duration { secs, nanos: 0 }
    }

    /// A span of `millis` milliseconds.
    pub fn from_millis(millis: u64) -> (d: Duration)
        ensures
            d.total_nanos() == millis * 1_000_000,
            d.nanos < NANOS_PER_SEC,
    {
        Duration { secs: millis / 1000, nanos: ((millis % 1000) as u32) * 1_000_000 }
    }

    /// The whole seconds of the span.
    pub fn as_secs(&self) -> (secs: u64)
        ensures
            secs == self.secs,
    {
        self.secs
    }

    /// The nanoseconds beyond the whole seconds.
    pub fn subsec_nanos(&self) -> (nanos: u32)
        ensures
            nanos == self.nanos,
    {
        self.nanos
    }

    /// The span in whole milliseconds.
    pub fn as_millis(&self) -> (millis: u128)
        ensures
            millis == self.secs * 1000 + self.nanos / 1_000_000,
    {
        (self.secs as u128) * 1000 + ((self.nanos / 1_000_000) as u128)
    }
}

/// SSL mode for database connections.
#[derive(Debug, Clone, Copy, PartialEq, Eq, Structural)]
pub enum SslMode {
    Disable,
    Allow,
    Prefer,
    Require,
    VerifyCA,
    VerifyFull,
}

impl SslMode {
    /// The name of the mode as it is written in a connection string.
    pub open spec fn name(&self) -> Seq<char> {
        match self {
            SslMode::Disable => "disable"@,
            SslMode::Allow => "allow"@,
            SslMode::Prefer => "prefer"@,
            SslMode::Require => "require"@,
            SslMode::VerifyCA => "verify-ca"@,
            SslMode::VerifyFull => "verify-full"@,
        }
    }

    /// The name of the mode, borrowed.
    pub fn as_str(&self) -> (s: &'static str)
        ensures
            s@ == self.name(),
    {
        match self {
            SslMode::Disable => "disable",
            SslMode::Allow => "allow",
            SslMode::Prefer => "prefer",
            SslMode::Require => "require",
            SslMode::VerifyCA => "verify-ca",
            SslMode::VerifyFull => "verify-full",
        }
    }

    /// The name of the mode, owned.
    pub fn to_string(&self) -> (s: String)
        ensures
            s@ == self.name(),
    {
        String::from_str(self.as_str())
    }
}

/// Application-level configuration.
#[derive(Debug, Clone)]
pub struct AppConfig {
    /// Application name.
    pub name: String,
    /// Application version.
    pub version: String,
    /// Environment (development, staging, production).
    pub environment: String,
    /// Log level.
    pub log_level: String,
    /// Data directory.
    pub data_dir: String,
    /// Temporary directory.
    pub temp_dir: String,
}

/// Database configuration.
#[derive(Debug, Clone)]
pub struct DatabaseConfig {
    /// Database URL.
    pub url: String,
    /// Maximum connections in pool.
    pub max_connections: u32,
    /// Connection timeout.
    pub connection_timeout: Duration,
    /// Query timeout.
    pub query_timeout: Duration,
    /// SSL mode.
    pub ssl_mode: SslMode,
    /// SSL certificate path.
    pub ssl_cert: Option<String>,
    /// SSL key path.
    pub ssl_key: Option<String>,
    /// SSL CA path.
    pub ssl_ca: Option<String>,
}

/// Redis configuration.
#[derive(Debug, Clone)]
pub struct RedisConfig {
    /// Redis URL.
    pub url: String,
    /// Connection pool size.
    pub pool_size: u32,
    /// Connection timeout.
    pub connection_timeout: Duration,
    /// Read timeout.
    pub read_timeout: Duration,
    /// Write timeout.
    pub write_timeout: Duration,
    /// Enable TLS.
    pub tls: bool,
    /// TLS certificate path.
    pub tls_cert: Option<String>,
}

/// RabbitMQ configuration.
#[derive(Debug, Clone)]
pub struct RabbitMQConfig {
    /// RabbitMQ URL.
    pub url: String,
    /// Connection timeout.
    pub connection_timeout: Duration,
    /// Heartbeat interval.
    pub heartbeat: Duration,
    /// Channel timeout.
    pub channel_timeout: Duration,
    /// Enable TLS.
    pub tls: bool,
    /// TLS certificate path.
    pub tls_cert: Option<String>,
}

/// Security configuration.
#[derive(Debug, Clone)]
pub struct SecurityConfig {
    /// JWT secret key.
    pub jwt_secret: String,
    /// JWT expiration time.
    pub jwt_expiry: Duration,
    /// Refresh token expiration time.
    pub refresh_token_expiry: Duration,
    /// Certificate authority bundle path.
    pub ca_bundle_path: String,
    /// Encryption key (32 bytes, base64 encoded).
    pub encryption_key: String,
    /// Key rotation interval.
    pub key_rotation_interval: Duration,
    /// Maximum login attempts.
    pub max_login_attempts: u32,
    /// Account lockout duration.
    pub lockout_duration: Duration,
    /// Enable rate limiting.
    pub rate_limiting: bool,
    /// Rate limit requests per minute.
    pub rate_limit_per_minute: u32,
    /// Enable certificate validation.
    pub certificate_validation: bool,
    /// Certificate expiry warning threshold.
    pub cert_expiry_warning: Duration,
    /// OCSP stapling enabled.
    pub ocsp_stapling: bool,
    /// CRL check interval.
    pub crl_check_interval: Duration,
}

/// API configuration.
#[derive(Debug, Clone)]
pub struct ApiConfig {
    /// API host.
    pub host: String,
    /// API port.
    pub port: u16,
    /// API base path.
    pub base_path: String,
    /// CORS origins.
    pub cors_origins: Vec<String>,
    /// Request timeout.
    pub request_timeout: Duration,
    /// Maximum request size (bytes).
    pub max_request_size: usize,
    /// Enable compression.
    pub compression: bool,
    /// Enable metrics endpoint.
    pub metrics_enabled: bool,
    /// Metrics path.
    pub metrics_path: String,
}

/// WebSocket configuration.
#[derive(Debug, Clone)]
pub struct WebSocketConfig {
    /// WebSocket host.
    pub host: String,
    /// WebSocket port.
    pub port: u16,
    /// Maximum connections.
    pub max_connections: u32,
    /// Connection timeout.
    pub connection_timeout: Duration,
    /// Heartbeat interval.
    pub heartbeat_interval: Duration,
    /// Enable compression.
    pub compression: bool,
}

/// Monitoring configuration.
#[derive(Debug, Clone)]
pub struct MonitoringConfig {
    /// Prometheus port.
    pub prometheus_port: u16,
    /// Grafana port.
    pub grafana_port: u16,
    /// Health check interval.
    pub health_check_interval: Duration,
    /// Metrics collection interval.
    pub metrics_interval: Duration,
    /// Enable distributed tracing.
    pub tracing_enabled: bool,
    /// Jaeger endpoint.
    pub jaeger_endpoint: Option<String>,
    /// Log aggregation endpoint.
    pub log_endpoint: Option<String>,
}

/// Performance configuration.
#[derive(Debug, Clone)]
pub struct PerformanceConfig {
    /// Worker thread count.
    pub worker_threads: usize,
    /// Maximum concurrent requests.
    pub max_concurrent_requests: usize,
    /// Cache TTL.
    pub cache_ttl: Duration,
    /// Database connection pool size.
    pub db_pool_size: u32,
    /// Redis connection pool size.
    pub redis_pool_size: u32,
    /// Message queue buffer size.
    pub queue_buffer_size: usize,
    /// Enable connection pooling.
    pub connection_pooling: bool,
    /// Enable query caching.
    pub query_caching: bool,
}

/// Privacy configuration.
#[derive(Debug, Clone)]
pub struct PrivacyConfig {
    /// Pseudonym rotation interval.
    pub pseudonym_rotation_interval: Duration,
    /// Location noise standard deviation (mm).
    pub location_noise_stddev: u32,
    /// Data retention period.
    pub data_retention_days: u32,
    /// Enable data anonymization.
    pub anonymization_enabled: bool,
    /// Enable differential privacy.
    pub differential_privacy: bool,
    /// Privacy budget (millionths).
    pub privacy_budget: u32,
    /// Enable zero-knowledge proofs.
    pub zero_knowledge_proofs: bool,
}

/// Main configuration structure.
#[derive(Debug, Clone)]
pub struct Config {
    /// Path to the configuration file.
    pub config_path: String,
    /// Application settings.
    pub app: AppConfig,
    /// Database configuration.
    pub database: DatabaseConfig,
    /// Redis configuration.
    pub redis: RedisConfig,
    /// RabbitMQ configuration.
    pub rabbitmq: RabbitMQConfig,
    /// Security configuration.
    pub security: SecurityConfig,
    /// API configuration.
    pub api: ApiConfig,
    /// WebSocket configuration.
    pub websocket: WebSocketConfig,
    /// Monitoring configuration.
    pub monitoring: MonitoringConfig,
    /// Performance configuration.
    pub performance: PerformanceConfig,
    /// Privacy configuration.
    pub privacy: PrivacyConfig,
}

impl AppConfig {
    /// Whether every setting has its default value.
    pub open spec fn is_default(&self) -> bool {
        &&& self.name@ == "GeoVAN"@
        &&& self.version@ == crate::VERSION@
        &&& self.environment@ == "development"@
        &&& self.log_level@ == "info"@
        &&& self.data_dir@ == "data"@
        &&& self.temp_dir@ == "tmp"@
    }
}

impl Default for AppConfig {
    fn default() -> (c: Self)
        ensures
            c.is_default(),
    {
        AppConfig {
            name: String::from_str("GeoVAN"),
            version: String::from_str(crate::VERSION),
            environment: String::from_str("development"),
            log_level: String::from_str("info"),
            data_dir: String::from_str("data"),
            temp_dir: String::from_str("tmp"),
        }
    }
}

impl DatabaseConfig {
    /// Whether every setting has its default value.
    pub open spec fn is_default(&self) -> bool {
        &&& self.url@ == "postgresql://localhost:5432/geovan"@
        &&& self.max_connections == 10
        &&& self.connection_timeout == (Duration { secs: 30, nanos: 0 })
        &&& self.query_timeout == (Duration { secs: 60, nanos: 0 })
        &&& self.ssl_mode == SslMode::Prefer
        &&& self.ssl_cert is None
        &&& self.ssl_key is None
        &&& self.ssl_ca is None
    }
}

impl Default for DatabaseConfig {
    fn default() -> (c: Self)
        ensures
            c.is_default(),
    {
        DatabaseConfig {
            url: String::from_str("postgresql://localhost:5432/geovan"),
            max_connections: 10,
            connection_timeout: Duration::from_secs(30),
            query_timeout: Duration::from_secs(60),
            ssl_mode: SslMode::Prefer,
            ssl_cert: None,
            ssl_key: None,
            ssl_ca: None,
        }
    }
}

impl RedisConfig {
    /// Whether every setting has its default value.
    pub open spec fn is_default(&self) -> bool {
        &&& self.url@ == "redis://localhost:6379"@
        &&& self.pool_size == 10
        &&& self.connection_timeout == (Duration { secs: 5, nanos: 0 })
        &&& self.read_timeout == (Duration { secs: 3, nanos: 0 })
        &&& self.write_timeout == (Duration { secs: 3, nanos: 0 })
        &&& !self.tls
        &&& self.tls_cert is None
    }
}

impl Default for RedisConfig {
    fn default() -> (c: Self)
        ensures
            c.is_default(),
    {
        RedisConfig {
            url: String::from_str("redis://localhost:6379"),
            pool_size: 10,
            connection_timeout: Duration::from_secs(5),
            read_timeout: Duration::from_secs(3),
            write_timeout: Duration::from_secs(3),
            tls: false,
            tls_cert: None,
        }
    }
}

impl RabbitMQConfig {
    /// Whether every setting has its default value.
    pub open spec fn is_default(&self) -> bool {
        &&& self.url@ == "amqp://localhost:5672"@
        &&& self.connection_timeout == (Duration { secs: 30, nanos: 0 })
        &&& self.heartbeat == (Duration { secs: 60, nanos: 0 })
        &&& self.channel_timeout == (Duration { secs: 30, nanos: 0 })
        &&& !self.tls
        &&& self.tls_cert is None
    }
}

impl Default for RabbitMQConfig {
    fn default() -> (c: Self)
        ensures
            c.is_default(),
    {
        RabbitMQConfig {
            url: String::from_str("amqp://localhost:5672"),
            connection_timeout: Duration::from_secs(30),
            heartbeat: Duration::from_secs(60),
            channel_timeout: Duration::from_secs(30),
            tls: false,
            tls_cert: None,
        }
    }
}

impl SecurityConfig {
    /// Whether every setting has its default value.
    pub open spec fn is_default(&self) -> bool {
        &&& self.jwt_secret@ == "your-super-secret-jwt-key-change-in-production"@
        &&& self.jwt_expiry == (Duration { secs: 3600, nanos: 0 })
        &&& self.refresh_token_expiry == (Duration { secs: 604800, nanos: 0 })
        &&& self.ca_bundle_path@ == "/etc/ssl/certs/ca-bundle.crt"@
        &&& self.encryption_key@ == "dGVzdC1rZXktZm9yLWRldmVsb3BtZW50LW9ubHktMzI="@
        &&& self.key_rotation_interval == (Duration { secs: 86400, nanos: 0 })
        &&& self.max_login_attempts == 5
        &&& self.lockout_duration == (Duration { secs: 900, nanos: 0 })
        &&& self.rate_limiting
        &&& self.rate_limit_per_minute == 1000
        &&& self.certificate_validation
        &&& self.cert_expiry_warning == (Duration { secs: 2592000, nanos: 0 })
        &&& self.ocsp_stapling
        &&& self.crl_check_interval == (Duration { secs: 3600, nanos: 0 })
    }
}

impl Default for SecurityConfig {
    fn default() -> (c: Self)
        ensures
            c.is_default(),
    {
        SecurityConfig {
            jwt_secret: String::from_str("your-super-secret-jwt-key-change-in-production"),
            // 1 hour
            jwt_expiry: Duration::from_secs(3600),
            // 7 days
            refresh_token_expiry: Duration::from_secs(604800),
            ca_bundle_path: String::from_str("/etc/ssl/certs/ca-bundle.crt"),
            // a development key of 32 bytes, base64 encoded
            encryption_key: String::from_str("dGVzdC1rZXktZm9yLWRldmVsb3BtZW50LW9ubHktMzI="),
            // 24 hours
            key_rotation_interval: Duration::from_secs(86400),
            max_login_attempts: 5,
            // 15 minutes
            lockout_duration: Duration::from_secs(900),
            rate_limiting: true,
            rate_limit_per_minute: 1000,
            certificate_validation: true,
            // 30 days
            cert_expiry_warning: Duration::from_secs(2592000),
            ocsp_stapling: true,
            // 1 hour
            crl_check_interval: Duration::from_secs(3600),
        }
    }
}

impl ApiConfig {
    /// Whether every setting has its default value.
    pub open spec fn is_default(&self) -> bool {
        &&& self.host@ == "127.0.0.1"@
        &&& self.port == 8080
        &&& self.base_path@ == "/api/v1"@
        &&& self.cors_origins@.len() == 1
        &&& self.cors_origins@[0]@ == "http://localhost:3000"@
        &&& self.request_timeout == (Duration { secs: 30, nanos: 0 })
        &&& self.max_request_size == 10 * 1024 * 1024
        &&& self.compression
        &&& self.metrics_enabled
        &&& self.metrics_path@ == "/metrics"@
    }
}

impl Default for ApiConfig {
    fn default() -> (c: Self)
        ensures
            c.is_default(),
    {
        let mut cors_origins: Vec<String> = Vec::new();
        cors_origins.push(String::from_str("http://localhost:3000"));
        ApiConfig {
            host: String::from_str("127.0.0.1"),
            port: 8080,
            base_path: String::from_str("/api/v1"),
            cors_origins,
            request_timeout: Duration::from_secs(30),
            // 10 MiB
            max_request_size: 10 * 1024 * 1024,
            compression: true,
            metrics_enabled: true,
            metrics_path: String::from_str("/metrics"),
        }
    }
}

impl WebSocketConfig {
    /// Whether every setting has its default value.
    pub open spec fn is_default(&self) -> bool {
        &&& self.host@ == "127.0.0.1"@
        &&& self.port == 8081
        &&& self.max_connections == 10000
        &&& self.connection_timeout == (Duration { secs: 30, nanos: 0 })
        &&& self.heartbeat_interval == (Duration { secs: 30, nanos: 0 })
        &&& self.compression
    }
}

impl Default for WebSocketConfig {
    fn default() -> (c: Self)
        ensures
            c.is_default(),
    {
        WebSocketConfig {
            host: String::from_str("127.0.0.1"),
            port: 8081,
            max_connections: 10000,
            connection_timeout: Duration::from_secs(30),
            heartbeat_interval: Duration::from_secs(30),
            compression: true,
        }
    }
}

impl MonitoringConfig {
    /// Whether every setting has its default value.
    pub open spec fn is_default(&self) -> bool {
        &&& self.prometheus_port == 9090
        &&& self.grafana_port == 3000
        &&& self.health_check_interval == (Duration { secs: 30, nanos: 0 })
        &&& self.metrics_interval == (Duration { secs: 15, nanos: 0 })
        &&& !self.tracing_enabled
        &&& self.jaeger_endpoint is None
        &&& self.log_endpoint is None
    }
}

impl Default for MonitoringConfig {
    fn default() -> (c: Self)
        ensures
            c.is_default(),
    {
        MonitoringConfig {
            prometheus_port: 9090,
            grafana_port: 3000,
            health_check_interval: Duration::from_secs(30),
            metrics_interval: Duration::from_secs(15),
            tracing_enabled: false,
            jaeger_endpoint: None,
            log_endpoint: None,
        }
    }
}

impl PerformanceConfig {
    /// Whether every setting but the number of worker threads has its
    /// default value.
    pub open spec fn is_default(&self) -> bool {
        &&& self.max_concurrent_requests == 1000
        &&& self.cache_ttl == (Duration { secs: 300, nanos: 0 })
        &&& self.db_pool_size == 10
        &&& self.redis_pool_size == 10
        &&& self.queue_buffer_size == 10000
        &&& self.connection_pooling
        &&& self.query_caching
    }

    /// The default settings for a machine with `worker_threads` processors.
    pub fn with_worker_threads(worker_threads: usize) -> (c: Self)
        ensures
            c.worker_threads == worker_threads,
            c.is_default(),
    {
        PerformanceConfig {
            worker_threads,
            max_concurrent_requests: 1000,
            // 5 minutes
            cache_ttl: Duration::from_secs(300),
            db_pool_size: 10,
            redis_pool_size: 10,
            queue_buffer_size: 10000,
            connection_pooling: true,
            query_caching: true,
        }
    }
}

impl Default for PerformanceConfig {
    /// One worker thread per processor that the machine reports; the other
    /// settings do not depend on the machine.
    fn default() -> (c: Self)
        ensures
            c.is_default(),
    {
        PerformanceConfig::with_worker_threads(logical_cpu_count())
    }
}

impl PrivacyConfig {
    /// Whether every setting has its default value.
    pub open spec fn is_default(&self) -> bool {
        &&& self.pseudonym_rotation_interval == (Duration { secs: 300, nanos: 0 })
        &&& self.location_noise_stddev == 5000
        &&& self.data_retention_days == 90
        &&& self.anonymization_enabled
        &&& !self.differential_privacy
        &&& self.privacy_budget == 1_000_000
        &&& !self.zero_knowledge_proofs
    }
}

impl Default for PrivacyConfig {
    fn default() -> (c: Self)
        ensures
            c.is_default(),
    {
        PrivacyConfig {
            // 5 minutes
            pseudonym_rotation_interval: Duration::from_secs(300),
            // 5 metres
            location_noise_stddev: 5000,
            data_retention_days: 90,
            anonymization_enabled: true,
            differential_privacy: false,
            privacy_budget: 1_000_000,
            zero_knowledge_proofs: false,
        }
    }
}

impl Config {
    /// Whether the configuration is the default one: the configuration file
    /// is `config/geovan.toml`, and every section has its default settings.
    pub open spec fn is_default(&self) -> bool {
        &&& self.config_path@ == "config/geovan.toml"@
        &&& self.app.is_default()
        &&& self.database.is_default()
        &&& self.redis.is_default()
        &&& self.rabbitmq.is_default()
        &&& self.security.is_default()
        &&& self.api.is_default()
        &&& self.websocket.is_default()
        &&& self.monitoring.is_default()
        &&& self.performance.is_default()
        &&& self.privacy.is_default()
    }
}

impl Default for Config {
    /// The default of every section, for the configuration file
    /// `config/geovan.toml`.
    fn default() -> (c: Self)
        ensures
            c.is_default(),
    {
        Config {
            config_path: String::from_str("config/geovan.toml"),
            app: AppConfig::default(),
            database: DatabaseConfig::default(),
            redis: RedisConfig::default(),
            rabbitmq: RabbitMQConfig::default(),
            security: SecurityConfig::default(),
            api: ApiConfig::default(),
            websocket: WebSocketConfig::default(),
            monitoring: MonitoringConfig::default(),
            performance: PerformanceConfig::default(),
            privacy: PrivacyConfig::default(),
        }
    }
}

/// Least length of a JWT secret, in bytes.
pub const JWT_SECRET_MIN_LEN: usize = 32;

/// Length of a 32-byte key in base64, in bytes.
pub const ENCRYPTION_KEY_LEN: usize = 44;

/// Length of `s` in bytes of UTF-8.
pub open spec fn byte_len(s: Seq<char>) -> nat {
    vstd::utf8::encode_utf8(s).len()
}

impl Config {
    /// The first rule that the configuration breaks, by its message, or
    /// `None` where it keeps all of them. The rules, in the order in which
    /// they are tried: the three service URLs are not empty; the JWT secret
    /// has at least 32 bytes; the encryption key has exactly 44; neither
    /// listening port is 0; the database connection timeout is at least one
    /// second.
    pub open spec fn first_violation(&self) -> Option<Seq<char>> {
        if self.database.url@.len() == 0 {
            Some("Database URL cannot be empty"@)
        } else if self.redis.url@.len() == 0 {
            Some("Redis URL cannot be empty"@)
        } else if self.rabbitmq.url@.len() == 0 {
            Some("RabbitMQ URL cannot be empty"@)
        } else if byte_len(self.security.jwt_secret@) < JWT_SECRET_MIN_LEN {
            Some("JWT secret must be at least 32 characters"@)
        } else if byte_len(self.security.encryption_key@) != ENCRYPTION_KEY_LEN {
            Some("Encryption key must be 32 bytes (base64 encoded)"@)
        } else if self.api.port == 0 || self.websocket.port == 0 {
            Some("Ports cannot be 0"@)
        } else if self.database.connection_timeout.secs == 0 {
            Some("Database connection timeout cannot be 0"@)
        } else {
            None
        }
    }

    /// Whether the configuration keeps every rule.
    pub open spec fn is_valid(&self) -> bool {
        self.first_violation() is None
    }

    /// Checks the configuration against the rules and reports the first one
    /// that it breaks.
    pub fn validate(&self) -> (r: Result<(), ConfigError>)
        ensures
            match r {
                Ok(()) => self.first_violation() is None,
                Err(ConfigError::ValidationError(msg)) => self.first_violation() == Some(msg@),
                Err(ConfigError::LoadError(_)) => false,
            },
    {
        if self.database.url.as_str().is_empty() {
            return Err(violation("Database URL cannot be empty"));
        }
        if self.redis.url.as_str().is_empty() {
            return Err(violation("Redis URL cannot be empty"));
        }
        if self.rabbitmq.url.as_str().is_empty() {
            return Err(violation("RabbitMQ URL cannot be empty"));
        }
        if utf8_len(&self.security.jwt_secret) < JWT_SECRET_MIN_LEN {
            return Err(violation("JWT secret must be at least 32 characters"));
        }
        if utf8_len(&self.security.encryption_key) != ENCRYPTION_KEY_LEN {
            return Err(violation("Encryption key must be 32 bytes (base64 encoded)"));
        }
        if self.api.port == 0 || self.websocket.port == 0 {
            return Err(violation("Ports cannot be 0"));
        }
        if self.database.connection_timeout.as_secs() == 0 {
            return Err(violation("Database connection timeout cannot be 0"));
        }
        Ok(())
    }

    /// Combines a base configuration with one that overrides it. The
    /// override replaces the base as a whole: no field of `self` survives.
    pub fn merge(self, other: Config) -> (r: Result<Config, ConfigError>)
        ensures
            r == Ok::<Config, ConfigError>(other),
    {
        Ok(other)
    }

    /// Check if running in development mode.
    pub fn is_development(&self) -> (b: bool)
        ensures
            b == (self.app.environment@ == "development"@),
    {
        self.app.environment == String::from_str("development")
    }

    /// Check if running in production mode.
    pub fn is_production(&self) -> (b: bool)
        ensures
            b == (self.app.environment@ == "production"@),
    {
        self.app.environment == String::from_str("production")
    }

    /// What `get_database_url` returns: the database URL, followed, where a
    /// CA path is set, by the SSL mode and that path as two query parameters.
    pub open spec fn database_url(&self) -> Seq<char> {
        match self.database.ssl_ca {
            Some(ca_path) => self.database.url@ + "&sslmode="@ + self.database.ssl_mode.name()
                + "&sslrootcert="@ + ca_path@,
            None => self.database.url@,
        }
    }

    /// Get database connection string with SSL parameters.
    pub fn get_database_url(&self) -> (url: String)
        ensures
            url@ == self.database_url(),
    {
        let mut url = self.database.url.clone();
        match &self.database.ssl_ca {
            Some(ca_path) => {
                url.append("&sslmode=");
                url.append(self.database.ssl_mode.as_str());
                url.append("&sslrootcert=");
                url.append(ca_path.as_str());
            },
            None => {},
        }
        url
    }
}

/// The default configuration keeps every rule.
pub proof fn lemma_default_is_valid(config: Config)
    requires
        config.is_default(),
    ensures
        config.is_valid(),
{
    reveal_strlit("postgresql://localhost:5432/geovan");
    reveal_strlit("redis://localhost:6379");
    reveal_strlit("amqp://localhost:5672");
    reveal_strlit("your-super-secret-jwt-key-change-in-production");
    reveal_strlit("dGVzdC1rZXktZm9yLWRldmVsb3BtZW50LW9ubHktMzI=");
    let secret = "your-super-secret-jwt-key-change-in-production"@;
    let key = "dGVzdC1rZXktZm9yLWRldmVsb3BtZW50LW9ubHktMzI="@;
    assert(vstd::utf8::is_ascii_chars(secret));
    assert(vstd::utf8::is_ascii_chars(key));
    vstd::utf8::is_ascii_chars_encode_utf8(secret);
    vstd::utf8::is_ascii_chars_encode_utf8(key);
}

/// Counts the bytes of `s`.
fn utf8_len(s: &String) -> (n: usize)
    ensures
        n == byte_len(s@),
{
    s.as_str().as_bytes().len()
}

/// The error for a broken rule, carrying the rule's message.
fn violation(message: &str) -> (e: ConfigError)
    ensures
        e matches ConfigError::ValidationError(text) && text@ == message@,
{
    ConfigError::ValidationError(String::from_str(message))
}

} // verus!
