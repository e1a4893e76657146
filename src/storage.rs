//! The storage side: key-prefix remapping, the error of backend
//! construction, and the factory that builds the one configured backend.
use crate::aws::AwsBackend;
use crate::azure::AzureBackend;
use crate::config::{BackendConfig, Config, ConfigError};
use crate::gcp::GcpBackend;
use vstd::prelude::*;

verus! {

#[verifier::external_type_specification]
#[verifier::external_body]
pub struct ExStoreError(object_store::Error);

#[verifier::external_type_specification]
#[verifier::external_body]
pub struct ExObjectPath(object_store::path::Path);

/// `p` without its trailing slashes.
pub open spec fn trim_trailing_slashes(p: Seq<char>) -> Seq<char>
    decreases p.len(),
{
    if p.len() > 0 && p.last() == '/' {
        trim_trailing_slashes(p.drop_last())
    } else {
        p
    }
}

/// The key that the provider sees for the logical key `key`: under a prefix,
/// the prefix without trailing slashes, a slash, then the key; without one,
/// the key itself.
pub open spec fn provider_key(prefix: Option<String>, key: Seq<char>) -> Seq<char> {
    match prefix {
        Some(p) => trim_trailing_slashes(p@) + seq!['/'] + key,
        None => key,
    }
}

/// Writes the provider-side key for `key` under `prefix`.
pub fn apply_prefix(prefix: &Option<String>, key: &str) -> (r: String)
    ensures
        r@ == provider_key(*prefix, key@),
{
    match prefix {
        Some(p) => {
            let ps = p.as_str();
            let mut end = ps.unicode_len();
            assert(ps@ =~= ps@.subrange(0, ps@.len() as int));
            while end > 0 && ps.get_char(end - 1) == '/'
                invariant
                    end <= ps@.len(),
                    trim_trailing_slashes(ps@.subrange(0, end as int)) == trim_trailing_slashes(
                        ps@,
                    ),
                decreases end,
            {
                assert(ps@.subrange(0, end as int).drop_last() =~= ps@.subrange(
                    0,
                    end - 1,
                ));
                end = end - 1;
            }
            assert(trim_trailing_slashes(ps@) == ps@.subrange(0, end as int));
            let mut out = String::from_str(ps.substring_char(0, end));
            proof {
                reveal_strlit("/");
            }
            out.append("/");
            out.append(key);
            assert(out@ =~= trim_trailing_slashes(p@) + seq!['/'] + key@);
            out
        },
        None => String::from_str(key),
    }
}

/// Relies on `object_store::path::Path`'s `From<String>`: the provider path
/// for a key, split at `/` with empty segments dropped.
#[verifier::external_body]
pub(crate) fn to_object_path(key: String) -> object_store::path::Path {
    object_store::path::Path::from(key)
}

/// Why a backend could not be built.
#[derive(Debug)]
pub enum BackendError {
    /// The configuration lacks what the chosen authentication needs.
    Config(ConfigError),
    /// The provider client refused the settings.
    Store(object_store::Error),
}

/// Whether `c` asks for explicit credentials and lacks one of them.
pub open spec fn credentials_missing(c: BackendConfig) -> bool {
    match c {
        BackendConfig::Aws(a) => !a.use_managed_identity && (a.access_key_id is None
            || a.secret_access_key is None),
        BackendConfig::Azure(z) => !z.use_managed_identity && z.access_key is None,
        BackendConfig::Gcp(g) => !g.use_managed_identity && g.service_account_path is None
            && g.service_account_key is None,
    }
}

/// The configuration error for missing credentials of `c`'s provider.
pub open spec fn missing_credentials_error(c: BackendConfig) -> ConfigError {
    match c {
        BackendConfig::Aws(_) => ConfigError::MissingAwsCredentials,
        BackendConfig::Azure(_) => ConfigError::MissingAzureAccessKey,
        BackendConfig::Gcp(_) => ConfigError::MissingGcpCredentials,
    }
}

/// The one backend that serves this process.
pub enum Backend {
    /// AWS S3
    Aws(AwsBackend),
    /// Azure Blob Storage
    Azure(AzureBackend),
    /// Google Cloud Storage
    Gcp(GcpBackend),
}

impl Backend {
    /// The prefix put before every key.
    pub open spec fn prefix_spec(&self) -> Option<String> {
        match self {
            Backend::Aws(b) => b.prefix,
            Backend::Azure(b) => b.prefix,
            Backend::Gcp(b) => b.prefix,
        }
    }

    /// The prefix put before every key.
    pub fn prefix(&self) -> (r: &Option<String>)
        ensures
            *r == self.prefix_spec(),
    {
        match self {
            Backend::Aws(b) => &b.prefix,
            Backend::Azure(b) => &b.prefix,
            Backend::Gcp(b) => &b.prefix,
        }
    }

    /// The provider-side key for the logical key `key`.
    pub fn provider_key(&self, key: &str) -> (r: String)
        ensures
            r@ == provider_key(self.prefix_spec(), key@),
    {
        apply_prefix(self.prefix(), key)
    }

    /// The provider path for the logical key `key`.
    pub fn apply_prefix(&self, key: &str) -> object_store::path::Path {
        to_object_path(self.provider_key(key))
    }
}

/// Builds the backend that the configuration selects, and that one only,
/// with the configuration's key prefix. Missing credentials are reported
/// before the provider client is touched, and are the only configuration
/// error; any other failure is the selected client's, returned as it is.
pub fn create_backend(config: &Config) -> (r: Result<Backend, BackendError>)
    ensures
        credentials_missing(config.backend) ==> r == Err::<Backend, BackendError>(
                BackendError::Config(missing_credentials_error(config.backend)),
            ),
        r is Err && r->Err_0 is Config ==> credentials_missing(config.backend),
        r is Ok ==> r->Ok_0.prefix_spec() == config.prefix,
        r is Ok ==> (r->Ok_0 is Aws <==> config.backend is Aws) && (r->Ok_0 is Azure
            <==> config.backend is Azure) && (r->Ok_0 is Gcp <==> config.backend is Gcp),
{
    let prefix = match &config.prefix {
        Some(p) => Some(p.clone()),
        None => None,
    };
    match &config.backend {
        BackendConfig::Aws(c) => {
            let b = AwsBackend::new(c)?;
            Ok(Backend::Aws(b.with_prefix(prefix)))
        },
        BackendConfig::Azure(c) => {
            let b = AzureBackend::new(c)?;
            Ok(Backend::Azure(b.with_prefix(prefix)))
        },
        BackendConfig::Gcp(c) => {
            let b = GcpBackend::new(c)?;
            Ok(Backend::Gcp(b.with_prefix(prefix)))
        },
    }
}

} // verus!
