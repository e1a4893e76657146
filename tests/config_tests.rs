use s3proxy::config::{
    default_bind_address, default_log_level, default_max_body_size, default_timeout_secs,
    default_true, AwsConfig, BackendConfig, BackendType, Config, ConfigError, EnvVars,
    ServerConfig,
};
use s3proxy::config::parse_u64;
use std::str::FromStr;

fn s(v: &str) -> Option<String> {
    Some(v.to_string())
}

fn aws_config() -> Config {
    Config {
        server: ServerConfig {
            bind_address: "127.0.0.1:9000".to_string(),
            timeout_secs: 10,
            max_body_size: 1024,
        },
        backend: BackendConfig::Aws(AwsConfig {
            bucket_name: "file-bucket".to_string(),
            region: "eu-west-1".to_string(),
            endpoint: None,
            use_managed_identity: true,
            access_key_id: None,
            secret_access_key: None,
            allow_http: false,
        }),
        prefix: None,
        log_level: "warn".to_string(),
    }
}

#[test]
fn test_backend_type_parsing() {
    assert_eq!(BackendType::from_str("aws").unwrap(), BackendType::Aws);
    assert_eq!(BackendType::from_str("azure").unwrap(), BackendType::Azure);
    assert_eq!(BackendType::from_str("gcp").unwrap(), BackendType::Gcp);
}

#[test]
fn backend_type_aliases_and_case() {
    assert_eq!(BackendType::parse("S3").unwrap(), BackendType::Aws);
    assert_eq!(BackendType::parse("AWS").unwrap(), BackendType::Aws);
    assert_eq!(BackendType::parse("Azure").unwrap(), BackendType::Azure);
    assert_eq!(BackendType::parse("GCS").unwrap(), BackendType::Gcp);
    assert_eq!(BackendType::parse("google").unwrap(), BackendType::Gcp);
}

#[test]
fn backend_type_unknown_is_error_with_message() {
    assert_eq!(BackendType::parse("Minio").unwrap_err(), "Unknown backend type: Minio");
    assert_eq!(BackendType::from_lowercase_name("x", "X").unwrap_err(), "Unknown backend type: X");
}

#[test]
fn defaults() {
    assert!(default_true());
    assert_eq!(default_timeout_secs(), 300);
    assert_eq!(default_max_body_size(), 5_368_709_120);
    assert_eq!(default_log_level(), "info");
    assert_eq!(default_bind_address(), "0.0.0.0:8080");
}

#[test]
fn env_only_defaults_to_aws_and_needs_bucket() {
    let env = EnvVars::default();
    assert!(matches!(Config::from_env_only(&env), Err(ConfigError::MissingAwsBucket)));
    let env = EnvVars { backend_container: s("legacy"), ..EnvVars::default() };
    let c = Config::from_env_only(&env).unwrap();
    match &c.backend {
        BackendConfig::Aws(a) => {
            assert_eq!(a.bucket_name, "legacy");
            assert_eq!(a.region, "us-east-1");
            assert!(a.use_managed_identity);
            assert!(!a.allow_http);
            assert_eq!(a.endpoint, None);
        }
        _ => panic!("expected AWS"),
    }
    assert_eq!(c.server.bind_address, "0.0.0.0:8080");
    assert_eq!(c.server.timeout_secs, 300);
    assert_eq!(c.server.max_body_size, 5_368_709_120);
    assert_eq!(c.log_level, "info");
    assert_eq!(c.prefix, None);
    assert_eq!(c.backend_type(), BackendType::Aws);
}

#[test]
fn env_only_reads_aws_settings() {
    let env = EnvVars {
        aws_bucket: s("data"),
        backend_container: s("ignored"),
        aws_region: s("eu-central-1"),
        aws_endpoint: s("http://minio:9000"),
        aws_use_managed_identity: s("false"),
        aws_access_key_id: s("AKIA"),
        aws_secret_access_key: s("s3cr3t"),
        aws_allow_http: s("true"),
        timeout_secs: s("42"),
        max_body_size: s("+17"),
        backend_prefix: s("tenant1"),
        log_level: s("debug"),
        ..EnvVars::default()
    };
    let c = Config::from_env_only(&env).unwrap();
    match &c.backend {
        BackendConfig::Aws(a) => {
            assert_eq!(a.bucket_name, "data");
            assert_eq!(a.region, "eu-central-1");
            assert_eq!(a.endpoint.as_deref(), Some("http://minio:9000"));
            assert!(!a.use_managed_identity);
            assert_eq!(a.access_key_id.as_deref(), Some("AKIA"));
            assert_eq!(a.secret_access_key.as_deref(), Some("s3cr3t"));
            assert!(a.allow_http);
        }
        _ => panic!("expected AWS"),
    }
    assert_eq!(c.server.timeout_secs, 42);
    assert_eq!(c.server.max_body_size, 17);
    assert_eq!(c.prefix.as_deref(), Some("tenant1"));
    assert_eq!(c.log_level, "debug");
}

#[test]
fn env_only_unreadable_values_fall_back() {
    let env = EnvVars {
        aws_bucket: s("b"),
        aws_use_managed_identity: s("yes"),
        aws_allow_http: s("TRUE"),
        timeout_secs: s("-5"),
        max_body_size: s("99999999999999999999"),
        ..EnvVars::default()
    };
    let c = Config::from_env_only(&env).unwrap();
    match &c.backend {
        BackendConfig::Aws(a) => {
            assert!(a.use_managed_identity);
            assert!(!a.allow_http);
        }
        _ => panic!("expected AWS"),
    }
    assert_eq!(c.server.timeout_secs, 300);
    assert_eq!(c.server.max_body_size, 5_368_709_120);
}

#[test]
fn env_only_azure_and_gcp() {
    let env = EnvVars { backend_type: s("azure"), ..EnvVars::default() };
    assert!(matches!(Config::from_env_only(&env), Err(ConfigError::MissingAzureAccount)));
    let env = EnvVars {
        backend_type: s("azure"),
        azure_account_name: s("acct"),
        ..EnvVars::default()
    };
    assert!(matches!(Config::from_env_only(&env), Err(ConfigError::MissingAzureContainer)));
    let env = EnvVars {
        backend_type: s("azure"),
        azure_account_name: s("acct"),
        backend_container: s("box"),
        azure_use_emulator: s("true"),
        azure_use_managed_identity: s("false"),
        azure_access_key: s("key"),
        ..EnvVars::default()
    };
    let c = Config::from_env_only(&env).unwrap();
    match &c.backend {
        BackendConfig::Azure(z) => {
            assert_eq!(z.account_name, "acct");
            assert_eq!(z.container_name, "box");
            assert!(z.use_emulator);
            assert!(!z.use_managed_identity);
            assert_eq!(z.access_key.as_deref(), Some("key"));
        }
        _ => panic!("expected Azure"),
    }
    let env = EnvVars { backend_type: s("gcp"), ..EnvVars::default() };
    assert!(matches!(Config::from_env_only(&env), Err(ConfigError::MissingGcpBucket)));
    let env = EnvVars {
        backend_type: s("gcs"),
        gcp_bucket: s("g"),
        gcp_service_account_path: s("/etc/key.json"),
        ..EnvVars::default()
    };
    let c = Config::from_env_only(&env).unwrap();
    assert_eq!(c.backend_type(), BackendType::Gcp);
    match &c.backend {
        BackendConfig::Gcp(g) => {
            assert_eq!(g.bucket_name, "g");
            assert!(g.use_managed_identity);
            assert_eq!(g.service_account_path.as_deref(), Some("/etc/key.json"));
            assert_eq!(g.service_account_key, None);
        }
        _ => panic!("expected GCP"),
    }
}

#[test]
fn env_only_unknown_backend() {
    let env = EnvVars { backend_type: s("ftp"), ..EnvVars::default() };
    match Config::from_env_only(&env) {
        Err(ConfigError::UnknownBackendType(m)) => assert_eq!(m, "Unknown backend type: ftp"),
        _ => panic!("expected an unknown backend error"),
    }
}

#[test]
fn overrides_win_over_file_values() {
    let mut c = aws_config();
    let env = EnvVars {
        bind_address: s("0.0.0.0:1234"),
        timeout_secs: s("7"),
        log_level: s("trace"),
        backend_prefix: s("p/"),
        aws_bucket: s("env-bucket"),
        aws_use_managed_identity: s("nonsense"),
        aws_access_key_id: s("id"),
        ..EnvVars::default()
    };
    c.apply_env_overrides(&env).unwrap();
    assert_eq!(c.server.bind_address, "0.0.0.0:1234");
    assert_eq!(c.server.timeout_secs, 7);
    assert_eq!(c.server.max_body_size, 1024);
    assert_eq!(c.log_level, "trace");
    assert_eq!(c.prefix.as_deref(), Some("p/"));
    match &c.backend {
        BackendConfig::Aws(a) => {
            assert_eq!(a.bucket_name, "env-bucket");
            assert_eq!(a.region, "eu-west-1");
            assert!(a.use_managed_identity);
            assert_eq!(a.access_key_id.as_deref(), Some("id"));
        }
        _ => panic!("expected AWS"),
    }
}

#[test]
fn overrides_reject_bad_numbers_and_leave_config_alone() {
    let mut c = aws_config();
    let env = EnvVars { timeout_secs: s("soon"), log_level: s("trace"), ..EnvVars::default() };
    assert!(matches!(c.apply_env_overrides(&env), Err(ConfigError::InvalidTimeout)));
    assert_eq!(c.log_level, "warn");
    let env = EnvVars { max_body_size: s("1k"), ..EnvVars::default() };
    assert!(matches!(c.apply_env_overrides(&env), Err(ConfigError::InvalidMaxBodySize)));
    assert_eq!(c.server.max_body_size, 1024);
}

#[test]
fn from_env_prefers_file_then_applies_overrides() {
    let env = EnvVars { aws_region: s("ap-south-1"), ..EnvVars::default() };
    let c = Config::from_env(Some(aws_config()), &env).unwrap();
    match &c.backend {
        BackendConfig::Aws(a) => {
            assert_eq!(a.bucket_name, "file-bucket");
            assert_eq!(a.region, "ap-south-1");
        }
        _ => panic!("expected AWS"),
    }
    assert!(matches!(Config::from_env(None, &env), Err(ConfigError::MissingAwsBucket)));
    let env = EnvVars { aws_bucket: s("b"), timeout_secs: s("x"), ..EnvVars::default() };
    assert!(matches!(Config::from_env(None, &env), Err(ConfigError::InvalidTimeout)));
    let env = EnvVars { aws_bucket: s("b"), timeout_secs: s("60"), ..EnvVars::default() };
    assert_eq!(Config::from_env(None, &env).unwrap().server.timeout_secs, 60);
}

#[test]
fn config_error_messages() {
    assert_eq!(
        ConfigError::MissingAwsBucket.message(),
        "S3PROXY_AWS_BUCKET or S3PROXY_BACKEND_CONTAINER must be set"
    );
    assert_eq!(
        ConfigError::UnknownBackendType("Unknown backend type: x".to_string()).message(),
        "Unknown backend type: x"
    );
    assert_eq!(
        ConfigError::MissingGcpCredentials.message(),
        "GCP service account credentials (service_account_path or service_account_key) are required when use_managed_identity is false"
    );
}

#[test]
fn overrides_apply_http_and_emulator_flags() {
    let mut c = aws_config();
    let env = EnvVars { aws_allow_http: s("true"), ..EnvVars::default() };
    c.apply_env_overrides(&env).unwrap();
    match &c.backend {
        BackendConfig::Aws(a) => assert!(a.allow_http),
        _ => panic!("expected AWS"),
    }
    let mut z = aws_config();
    z.backend = BackendConfig::Azure(s3proxy::config::AzureConfig {
        account_name: "a".to_string(),
        container_name: "c".to_string(),
        use_managed_identity: true,
        access_key: None,
        use_emulator: false,
    });
    let env = EnvVars { azure_use_emulator: s("true"), ..EnvVars::default() };
    let z = Config::from_env(Some(z), &env).unwrap();
    match &z.backend {
        BackendConfig::Azure(a) => assert!(a.use_emulator),
        _ => panic!("expected Azure"),
    }
}

#[test]
fn unsigned_numbers_read_like_std() {
    assert_eq!(parse_u64("0"), Some(0));
    assert_eq!(parse_u64("+42"), Some(42));
    assert_eq!(parse_u64("007"), Some(7));
    assert_eq!(parse_u64("18446744073709551615"), Some(u64::MAX));
    assert_eq!(parse_u64("18446744073709551616"), None);
    assert_eq!(parse_u64("99999999999999999999x"), None);
    assert_eq!(parse_u64(""), None);
    assert_eq!(parse_u64("+"), None);
    assert_eq!(parse_u64("-0"), None);
    assert_eq!(parse_u64(" 1"), None);
    assert_eq!(parse_u64("1_000"), None);
}
