//! The Google Cloud Storage backend: credential resolution and client
//! construction.
use crate::config::{ConfigError, GcpConfig};
use crate::storage::{to_object_path, apply_prefix, provider_key, BackendError};
use object_store::gcp::{GoogleCloudStorage, GoogleCloudStorageBuilder};
use vstd::prelude::*;

verus! {

#[verifier::external_type_specification]
#[verifier::external_body]
pub struct ExGoogleCloudStorage(GoogleCloudStorage);

#[verifier::external_type_specification]
#[verifier::external_body]
pub struct ExGoogleCloudStorageBuilder(GoogleCloudStorageBuilder);

/// Relies on `GoogleCloudStorageBuilder::new`: a builder with nothing set.
#[verifier::external_body]
fn gcs_builder() -> GoogleCloudStorageBuilder {
    GoogleCloudStorageBuilder::new()
}

/// Relies on `GoogleCloudStorageBuilder::with_bucket_name`: sets the bucket to serve.
#[verifier::external_body]
fn gcs_with_bucket(b: GoogleCloudStorageBuilder, name: &str) -> GoogleCloudStorageBuilder {
    b.with_bucket_name(name)
}

/// Relies on `GoogleCloudStorageBuilder::with_service_account_path`: the
/// client reads the key from this file when it is built.
#[verifier::external_body]
fn gcs_with_key_file(b: GoogleCloudStorageBuilder, path: &str) -> GoogleCloudStorageBuilder {
    b.with_service_account_path(path)
}

/// Relies on `GoogleCloudStorageBuilder::with_service_account_key`: the JSON
/// key itself.
#[verifier::external_body]
fn gcs_with_key(b: GoogleCloudStorageBuilder, key: &str) -> GoogleCloudStorageBuilder {
    b.with_service_account_key(key)
}

/// Relies on `GoogleCloudStorageBuilder::build`: the client, or why the
/// settings were refused.
#[verifier::external_body]
fn gcs_build(b: GoogleCloudStorageBuilder) -> Result<GoogleCloudStorage, object_store::Error> {
    b.build()
}

/// How the GCS client authenticates.
#[derive(Debug, Clone)]
pub enum GcpCredentials {
    /// Application Default Credentials: workload identity, metadata server,
    /// user credentials.
    DefaultChain,
    /// A service account key file.
    KeyFile(String),
    /// A service account JSON key, handed to the client directly.
    Key(String),
}

/// Picks the authentication for `config`: the default chain under managed
/// identity, else the key file where one is named, else the inline key; one
/// of the two must be present.
pub fn resolve_gcp_credentials(config: &GcpConfig) -> (r: Result<GcpCredentials, ConfigError>)
    ensures
        config.use_managed_identity ==> r == Ok::<GcpCredentials, ConfigError>(
            GcpCredentials::DefaultChain,
        ),
        !config.use_managed_identity ==> match (
            config.service_account_path,
            config.service_account_key,
        ) {
            (Some(p), _) => r == Ok::<GcpCredentials, ConfigError>(GcpCredentials::KeyFile(p)),
            (None, Some(k)) => r == Ok::<GcpCredentials, ConfigError>(GcpCredentials::Key(k)),
            (None, None) => r == Err::<GcpCredentials, ConfigError>(
                ConfigError::MissingGcpCredentials,
            ),
        },
{
    if config.use_managed_identity {
        return Ok(GcpCredentials::DefaultChain);
    }
    match (&config.service_account_path, &config.service_account_key) {
        (Some(p), _) => Ok(GcpCredentials::KeyFile(p.clone())),
        (None, Some(k)) => Ok(GcpCredentials::Key(k.clone())),
        (None, None) => Err(ConfigError::MissingGcpCredentials),
    }
}

/// Whether `config` asks for a service account and names neither a key file
/// nor a key.
pub open spec fn gcp_credentials_missing(config: GcpConfig) -> bool {
    !config.use_managed_identity && config.service_account_path is None
        && config.service_account_key is None
}

/// Everything the GCS client is built from.
#[derive(Debug, Clone)]
pub struct GcpSettings {
    /// Bucket to serve.
    pub bucket_name: String,
    /// How the client authenticates.
    pub credentials: GcpCredentials,
}

/// The client settings for `config`: its bucket as it stands, with the
/// resolved credentials.
pub fn gcp_settings(config: &GcpConfig) -> (r: Result<GcpSettings, ConfigError>)
    ensures
        gcp_credentials_missing(*config) ==> r == Err::<GcpSettings, ConfigError>(
            ConfigError::MissingGcpCredentials,
        ),
        !gcp_credentials_missing(*config) ==> r is Ok,
        r is Ok ==> {
            let s = r->Ok_0;
            &&& s.bucket_name == config.bucket_name
            &&& s.credentials == (if config.use_managed_identity {
                GcpCredentials::DefaultChain
            } else if config.service_account_path is Some {
                GcpCredentials::KeyFile(config.service_account_path->Some_0)
            } else {
                GcpCredentials::Key(config.service_account_key->Some_0)
            })
        },
{
    let credentials = resolve_gcp_credentials(config)?;
    Ok(GcpSettings { bucket_name: config.bucket_name.clone(), credentials })
}

/// Google Cloud Storage backend.
pub struct GcpBackend {
    /// The GCS client.
    pub store: GoogleCloudStorage,
    /// Prefix put before every key.
    pub prefix: Option<String>,
}

impl GcpBackend {
    /// Builds the client from `gcp_settings(config)`, with no key prefix: the
    /// bucket, and the key file or key where one was resolved. Missing
    /// service account credentials are reported before the client is built,
    /// and are the only configuration error; any other failure is the
    /// client's.
    pub fn new(config: &GcpConfig) -> (r: Result<GcpBackend, BackendError>)
        ensures
            gcp_credentials_missing(*config) ==> r == Err::<GcpBackend, BackendError>(
                BackendError::Config(ConfigError::MissingGcpCredentials),
            ),
            r is Err && r->Err_0 is Config ==> gcp_credentials_missing(*config),
            r is Ok ==> r->Ok_0.prefix is None,
    {
        let settings = match gcp_settings(config) {
            Ok(s) => s,
            Err(e) => {
                return Err(BackendError::Config(e));
            },
        };
        let mut builder = gcs_builder();
        builder = gcs_with_bucket(builder, settings.bucket_name.as_str());
        match &settings.credentials {
            GcpCredentials::KeyFile(p) => {
                builder = gcs_with_key_file(builder, p.as_str());
            },
            GcpCredentials::Key(k) => {
                builder = gcs_with_key(builder, k.as_str());
            },
            GcpCredentials::DefaultChain => {},
        }
        match gcs_build(builder) {
            Ok(store) => Ok(GcpBackend { store, prefix: None }),
            Err(e) => Err(BackendError::Store(e)),
        }
    }

    /// The provider path for the logical key `key`.
    pub fn apply_prefix(&self, key: &str) -> object_store::path::Path {
        to_object_path(apply_prefix(&self.prefix, key))
    }

    /// Sets the prefix put before every key.
    pub fn with_prefix(self, prefix: Option<String>) -> (r: GcpBackend)
        ensures
            r.prefix == prefix,
            r.store == self.store,
    {
        GcpBackend { store: self.store, prefix }
    }

    /// The provider-side key for the logical key `key`.
    pub fn provider_key(&self, key: &str) -> (r: String)
        ensures
            r@ == provider_key(self.prefix, key@),
    {
        apply_prefix(&self.prefix, key)
    }

    /// The underlying client.
    pub fn object_store(&self) -> (r: &GoogleCloudStorage)
        ensures
            *r == self.store,
    {
        &self.store
    }
}

} // verus!
