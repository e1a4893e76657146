//! The AWS S3 backend: credential resolution and client construction.
use crate::config::{copy_text, AwsConfig, ConfigError};
use crate::storage::{to_object_path, apply_prefix, provider_key, BackendError};
use object_store::aws::{AmazonS3, AmazonS3Builder};
use vstd::prelude::*;

verus! {

#[verifier::external_type_specification]
#[verifier::external_body]
pub struct ExAmazonS3(AmazonS3);

#[verifier::external_type_specification]
#[verifier::external_body]
pub struct ExAmazonS3Builder(AmazonS3Builder);

/// Relies on `AmazonS3Builder::new`: a builder with nothing set.
#[verifier::external_body]
fn s3_builder() -> AmazonS3Builder {
    AmazonS3Builder::new()
}

/// Relies on `AmazonS3Builder::with_bucket_name`: sets the bucket to serve.
#[verifier::external_body]
fn s3_with_bucket(b: AmazonS3Builder, name: &str) -> AmazonS3Builder {
    b.with_bucket_name(name)
}

/// Relies on `AmazonS3Builder::with_region`: sets the region.
#[verifier::external_body]
fn s3_with_region(b: AmazonS3Builder, region: &str) -> AmazonS3Builder {
    b.with_region(region)
}

/// Relies on `AmazonS3Builder::with_endpoint`: replaces the service URL.
#[verifier::external_body]
fn s3_with_endpoint(b: AmazonS3Builder, endpoint: &str) -> AmazonS3Builder {
    b.with_endpoint(endpoint)
}

/// Relies on `AmazonS3Builder::with_allow_http`: permits plaintext HTTP.
#[verifier::external_body]
fn s3_with_allow_http(b: AmazonS3Builder, allow: bool) -> AmazonS3Builder {
    b.with_allow_http(allow)
}

/// Relies on `AmazonS3Builder::with_access_key_id`: the static key id.
#[verifier::external_body]
fn s3_with_access_key_id(b: AmazonS3Builder, id: &str) -> AmazonS3Builder {
    b.with_access_key_id(id)
}

/// Relies on `AmazonS3Builder::with_secret_access_key`: the static secret.
#[verifier::external_body]
fn s3_with_secret_access_key(b: AmazonS3Builder, secret: &str) -> AmazonS3Builder {
    b.with_secret_access_key(secret)
}

/// Relies on `AmazonS3Builder::build`: the client, or why the settings were
/// refused.
#[verifier::external_body]
fn s3_build(b: AmazonS3Builder) -> Result<AmazonS3, object_store::Error> {
    b.build()
}

/// How the S3 client authenticates.
#[derive(Debug, Clone)]
pub enum AwsCredentials {
    /// The provider's default chain: workload identity, environment,
    /// instance metadata, task role.
    DefaultChain,
    /// Static keys handed to the client.
    Static { access_key_id: String, secret_access_key: String },
}

/// Picks the authentication for `config`: the default chain under managed
/// identity, else both static keys, which must be present.
pub fn resolve_aws_credentials(config: &AwsConfig) -> (r: Result<AwsCredentials, ConfigError>)
    ensures
        config.use_managed_identity ==> r == Ok::<AwsCredentials, ConfigError>(
            AwsCredentials::DefaultChain,
        ),
        !config.use_managed_identity ==> match (config.access_key_id, config.secret_access_key) {
            (Some(id), Some(secret)) => r == Ok::<AwsCredentials, ConfigError>(
                AwsCredentials::Static { access_key_id: id, secret_access_key: secret },
            ),
            _ => r == Err::<AwsCredentials, ConfigError>(ConfigError::MissingAwsCredentials),
        },
{
    if config.use_managed_identity {
        return Ok(AwsCredentials::DefaultChain);
    }
    match (&config.access_key_id, &config.secret_access_key) {
        (Some(id), Some(secret)) => Ok(
            AwsCredentials::Static { access_key_id: id.clone(), secret_access_key: secret.clone() },
        ),
        _ => Err(ConfigError::MissingAwsCredentials),
    }
}

/// Whether `config` asks for static keys and lacks one of them.
pub open spec fn aws_credentials_missing(config: AwsConfig) -> bool {
    !config.use_managed_identity && (config.access_key_id is None
        || config.secret_access_key is None)
}

/// Everything the S3 client is built from.
#[derive(Debug, Clone)]
pub struct AwsSettings {
    /// Bucket to serve.
    pub bucket_name: String,
    /// Region.
    pub region: String,
    /// Service URL that replaces the default one, if any.
    pub endpoint: Option<String>,
    /// Whether plaintext HTTP is permitted.
    pub allow_http: bool,
    /// How the client authenticates.
    pub credentials: AwsCredentials,
}

/// The client settings for `config`: its bucket, region, endpoint and HTTP
/// flag as they stand, with the resolved credentials.
pub fn aws_settings(config: &AwsConfig) -> (r: Result<AwsSettings, ConfigError>)
    ensures
        aws_credentials_missing(*config) ==> r == Err::<AwsSettings, ConfigError>(
            ConfigError::MissingAwsCredentials,
        ),
        !aws_credentials_missing(*config) ==> r is Ok,
        r is Ok ==> {
            let s = r->Ok_0;
            &&& s.bucket_name == config.bucket_name
            &&& s.region == config.region
            &&& s.endpoint == config.endpoint
            &&& s.allow_http == config.allow_http
            &&& s.credentials == (if config.use_managed_identity {
                AwsCredentials::DefaultChain
            } else {
                AwsCredentials::Static {
                    access_key_id: config.access_key_id->Some_0,
                    secret_access_key: config.secret_access_key->Some_0,
                }
            })
        },
{
    let credentials = resolve_aws_credentials(config)?;
    Ok(
        AwsSettings {
            bucket_name: config.bucket_name.clone(),
            region: config.region.clone(),
            endpoint: copy_text(&config.endpoint),
            allow_http: config.allow_http,
            credentials,
        },
    )
}

/// AWS S3 storage backend.
pub struct AwsBackend {
    /// The S3 client.
    pub store: AmazonS3,
    /// Prefix put before every key.
    pub prefix: Option<String>,
}

impl AwsBackend {
    /// Builds the client from `aws_settings(config)`, with no key prefix:
    /// bucket, region, static keys where they were resolved, the endpoint
    /// where one is set, plaintext HTTP where it is permitted. Missing static
    /// keys are reported before the client is built, and are the only
    /// configuration error; any other failure is the client's.
    pub fn new(config: &AwsConfig) -> (r: Result<AwsBackend, BackendError>)
        ensures
            aws_credentials_missing(*config) ==> r == Err::<AwsBackend, BackendError>(
                BackendError::Config(ConfigError::MissingAwsCredentials),
            ),
            r is Err && r->Err_0 is Config ==> aws_credentials_missing(*config),
            r is Ok ==> r->Ok_0.prefix is None,
    {
        let settings = match aws_settings(config) {
            Ok(s) => s,
            Err(e) => {
                return Err(BackendError::Config(e));
            },
        };
        let mut builder = s3_builder();
        builder = s3_with_bucket(builder, settings.bucket_name.as_str());
        builder = s3_with_region(builder, settings.region.as_str());
        if let AwsCredentials::Static { access_key_id, secret_access_key } = &settings.credentials {
            builder = s3_with_access_key_id(builder, access_key_id.as_str());
            builder = s3_with_secret_access_key(builder, secret_access_key.as_str());
        }
        if let Some(endpoint) = &settings.endpoint {
            builder = s3_with_endpoint(builder, endpoint.as_str());
        }
        if settings.allow_http {
            builder = s3_with_allow_http(builder, true);
        }
        match s3_build(builder) {
            Ok(store) => Ok(AwsBackend { store, prefix: None }),
            Err(e) => Err(BackendError::Store(e)),
        }
    }

    /// The provider path for the logical key `key`.
    pub fn apply_prefix(&self, key: &str) -> object_store::path::Path {
        to_object_path(apply_prefix(&self.prefix, key))
    }

    /// Sets the prefix put before every key.
    pub fn with_prefix(self, prefix: Option<String>) -> (r: AwsBackend)
        ensures
            r.prefix == prefix,
            r.store == self.store,
    {
        AwsBackend { store: self.store, prefix }
    }

    /// The provider-side key for the logical key `key`.
    pub fn provider_key(&self, key: &str) -> (r: String)
        ensures
            r@ == provider_key(self.prefix, key@),
    {
        apply_prefix(&self.prefix, key)
    }

    /// The underlying client.
    pub fn object_store(&self) -> (r: &AmazonS3)
        ensures
            *r == self.store,
    {
        &self.store
    }
}

} // verus!
