//! The Azure Blob Storage backend: credential resolution and client
//! construction.
use crate::config::{AzureConfig, ConfigError};
use crate::storage::{to_object_path, apply_prefix, provider_key, BackendError};
use object_store::azure::{MicrosoftAzure, MicrosoftAzureBuilder};
use vstd::prelude::*;

verus! {

#[verifier::external_type_specification]
#[verifier::external_body]
pub struct ExMicrosoftAzure(MicrosoftAzure);

#[verifier::external_type_specification]
#[verifier::external_body]
pub struct ExMicrosoftAzureBuilder(MicrosoftAzureBuilder);

/// Relies on `MicrosoftAzureBuilder::new`: a builder with nothing set.
#[verifier::external_body]
fn azure_builder() -> MicrosoftAzureBuilder {
    MicrosoftAzureBuilder::new()
}

/// Relies on `MicrosoftAzureBuilder::with_account`: sets the storage account.
#[verifier::external_body]
fn azure_with_account(b: MicrosoftAzureBuilder, account: &str) -> MicrosoftAzureBuilder {
    b.with_account(account)
}

/// Relies on `MicrosoftAzureBuilder::with_container_name`: sets the container.
#[verifier::external_body]
fn azure_with_container(b: MicrosoftAzureBuilder, container: &str) -> MicrosoftAzureBuilder {
    b.with_container_name(container)
}

/// Relies on `MicrosoftAzureBuilder::with_access_key`: the account access key.
#[verifier::external_body]
fn azure_with_access_key(b: MicrosoftAzureBuilder, key: &str) -> MicrosoftAzureBuilder {
    b.with_access_key(key)
}

/// Relies on `MicrosoftAzureBuilder::with_use_emulator`: targets the local emulator.
#[verifier::external_body]
fn azure_with_emulator(b: MicrosoftAzureBuilder, use_emulator: bool) -> MicrosoftAzureBuilder {
    b.with_use_emulator(use_emulator)
}

/// Relies on `MicrosoftAzureBuilder::build`: the client, or why the settings
/// were refused.
#[verifier::external_body]
fn azure_build(b: MicrosoftAzureBuilder) -> Result<MicrosoftAzure, object_store::Error> {
    b.build()
}

/// How the Azure client authenticates.
#[derive(Debug, Clone)]
pub enum AzureCredentials {
    /// The platform's default chain: workload identity federation, managed
    /// identity endpoint, CLI credentials.
    DefaultChain,
    /// The storage account's access key.
    AccessKey(String),
}

/// Picks the authentication for `config`: the default chain under managed
/// identity, else the access key, which must be present.
pub fn resolve_azure_credentials(config: &AzureConfig) -> (r: Result<
    AzureCredentials,
    ConfigError,
>)
    ensures
        config.use_managed_identity ==> r == Ok::<AzureCredentials, ConfigError>(
            AzureCredentials::DefaultChain,
        ),
        !config.use_managed_identity ==> match config.access_key {
            Some(k) => r == Ok::<AzureCredentials, ConfigError>(AzureCredentials::AccessKey(k)),
            None => r == Err::<AzureCredentials, ConfigError>(ConfigError::MissingAzureAccessKey),
        },
{
    if config.use_managed_identity {
        return Ok(AzureCredentials::DefaultChain);
    }
    match &config.access_key {
        Some(k) => Ok(AzureCredentials::AccessKey(k.clone())),
        None => Err(ConfigError::MissingAzureAccessKey),
    }
}

/// Whether `config` asks for the access key and lacks it.
pub open spec fn azure_credentials_missing(config: AzureConfig) -> bool {
    !config.use_managed_identity && config.access_key is None
}

/// Everything the Azure client is built from.
#[derive(Debug, Clone)]
pub struct AzureSettings {
    /// Storage account.
    pub account_name: String,
    /// Container to serve.
    pub container_name: String,
    /// Whether the local storage emulator is the target.
    pub use_emulator: bool,
    /// How the client authenticates.
    pub credentials: AzureCredentials,
}

/// The client settings for `config`: its account, container and emulator
/// flag as they stand, with the resolved credentials.
pub fn azure_settings(config: &AzureConfig) -> (r: Result<AzureSettings, ConfigError>)
    ensures
        azure_credentials_missing(*config) ==> r == Err::<AzureSettings, ConfigError>(
            ConfigError::MissingAzureAccessKey,
        ),
        !azure_credentials_missing(*config) ==> r is Ok,
        r is Ok ==> {
            let s = r->Ok_0;
            &&& s.account_name == config.account_name
            &&& s.container_name == config.container_name
            &&& s.use_emulator == config.use_emulator
            &&& s.credentials == (if config.use_managed_identity {
                AzureCredentials::DefaultChain
            } else {
                AzureCredentials::AccessKey(config.access_key->Some_0)
            })
        },
{
    let credentials = resolve_azure_credentials(config)?;
    Ok(
        AzureSettings {
            account_name: config.account_name.clone(),
            container_name: config.container_name.clone(),
            use_emulator: config.use_emulator,
            credentials,
        },
    )
}

/// Azure Blob Storage backend.
pub struct AzureBackend {
    /// The Azure client.
    pub store: MicrosoftAzure,
    /// Prefix put before every key.
    pub prefix: Option<String>,
}

impl AzureBackend {
    /// Builds the client from `azure_settings(config)`, with no key prefix:
    /// account, container, the access key where it was resolved, the emulator
    /// where it is asked for. A missing access key is reported before the
    /// client is built, and is the only configuration error; any other
    /// failure is the client's.
    pub fn new(config: &AzureConfig) -> (r: Result<AzureBackend, BackendError>)
        ensures
            azure_credentials_missing(*config) ==> r == Err::<AzureBackend, BackendError>(
                BackendError::Config(ConfigError::MissingAzureAccessKey),
            ),
            r is Err && r->Err_0 is Config ==> azure_credentials_missing(*config),
            r is Ok ==> r->Ok_0.prefix is None,
    {
        let settings = match azure_settings(config) {
            Ok(s) => s,
            Err(e) => {
                return Err(BackendError::Config(e));
            },
        };
        let mut builder = azure_builder();
        builder = azure_with_account(builder, settings.account_name.as_str());
        builder = azure_with_container(builder, settings.container_name.as_str());
        if let AzureCredentials::AccessKey(k) = &settings.credentials {
            builder = azure_with_access_key(builder, k.as_str());
        }
        if settings.use_emulator {
            builder = azure_with_emulator(builder, true);
        }
        match azure_build(builder) {
            Ok(store) => Ok(AzureBackend { store, prefix: None }),
            Err(e) => Err(BackendError::Store(e)),
        }
    }

    /// The provider path for the logical key `key`.
    pub fn apply_prefix(&self, key: &str) -> object_store::path::Path {
        to_object_path(apply_prefix(&self.prefix, key))
    }

    /// Sets the prefix put before every key.
    pub fn with_prefix(self, prefix: Option<String>) -> (r: AzureBackend)
        ensures
            r.prefix == prefix,
            r.store == self.store,
    {
        AzureBackend { store: self.store, prefix }
    }

    /// The provider-side key for the logical key `key`.
    pub fn provider_key(&self, key: &str) -> (r: String)
        ensures
            r@ == provider_key(self.prefix, key@),
    {
        apply_prefix(&self.prefix, key)
    }

    /// The underlying client.
    pub fn object_store(&self) -> (r: &MicrosoftAzure)
        ensures
            *r == self.store,
    {
        &self.store
    }
}

} // verus!
