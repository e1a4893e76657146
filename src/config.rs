//! Configuration: the provider selection, each provider's identity and
//! secrets, server tuning, and the merge of defaults, an optional file and
//! environment overrides (environment wins).
use crate::text::text_eq;
use vstd::prelude::*;

verus! {

/// Which object store serves the data.
#[derive(Debug, Clone, Copy, PartialEq, Eq, Structural)]
pub enum BackendType {
    /// AWS S3
    Aws,
    /// Azure Blob Storage
    Azure,
    /// Google Cloud Storage
    Gcp,
}

/// The result of `str::to_lowercase` on a text.
pub uninterp spec fn lower_of(s: Seq<char>) -> Seq<char>;

/// Relies on `str::to_lowercase`: the lowercase form depends on the
/// characters alone.
#[verifier::external_body]
fn lowercase(s: &str) -> (r: String)
    ensures
        r@ == lower_of(s@),
{
    s.to_lowercase()
}

/// The provider that a lowercase name selects, if any.
pub open spec fn backend_type_named(name: Seq<char>) -> Option<BackendType> {
    if name == "aws"@ || name == "s3"@ {
        Some(BackendType::Aws)
    } else if name == "azure"@ {
        Some(BackendType::Azure)
    } else if name == "gcp"@ || name == "gcs"@ || name == "google"@ {
        Some(BackendType::Gcp)
    } else {
        None
    }
}

/// The message for a provider name that selects nothing.
pub open spec fn unknown_backend_message(s: Seq<char>) -> Seq<char> {
    "Unknown backend type: "@ + s
}

impl BackendType {
    /// Selects a provider from a name already in lowercase; `original` is the
    /// name as the user wrote it, quoted by the error.
    pub fn from_lowercase_name(name: &str, original: &str) -> (r: Result<BackendType, String>)
        ensures
            match backend_type_named(name@) {
                Some(t) => r == Ok::<BackendType, String>(t),
                None => r is Err && r->Err_0@ == unknown_backend_message(original@),
            },
    {
        if text_eq(name, "aws") || text_eq(name, "s3") {
            Ok(BackendType::Aws)
        } else if text_eq(name, "azure") {
            Ok(BackendType::Azure)
        } else if text_eq(name, "gcp") || text_eq(name, "gcs") || text_eq(name, "google") {
            Ok(BackendType::Gcp)
        } else {
            let mut msg = String::from_str("Unknown backend type: ");
            msg.append(original);
            Err(msg)
        }
    }

    /// Selects a provider by name, ignoring case: `aws` or `s3`, `azure`,
    /// `gcp`, `gcs` or `google`.
    pub fn parse(s: &str) -> (r: Result<BackendType, String>)
        ensures
            match backend_type_named(lower_of(s@)) {
                Some(t) => r == Ok::<BackendType, String>(t),
                None => r is Err && r->Err_0@ == unknown_backend_message(s@),
            },
    {
        let lower = lowercase(s);
        BackendType::from_lowercase_name(lower.as_str(), s)
    }
}

impl std::str::FromStr for BackendType {
    type Err = String;

    fn from_str(s: &str) -> Result<BackendType, String> {
        BackendType::parse(s)
    }
}

/// AWS S3 settings.
#[derive(Debug, Clone)]
pub struct AwsConfig {
    /// Bucket name.
    pub bucket_name: String,
    /// Region, for example `us-east-1`.
    pub region: String,
    /// Custom endpoint URL, for S3-compatible services.
    pub endpoint: Option<String>,
    /// Use the platform's credential chain instead of explicit keys.
    pub use_managed_identity: bool,
    /// Access key id; required when managed identity is off.
    pub access_key_id: Option<String>,
    /// Secret access key; required when managed identity is off.
    pub secret_access_key: Option<String>,
    /// Permit plaintext HTTP connections.
    pub allow_http: bool,
}

/// Default of every `use_managed_identity` flag.
pub fn default_true() -> (r: bool)
    ensures
        r,
{
    true
}

/// Azure Blob Storage settings.
#[derive(Debug, Clone)]
pub struct AzureConfig {
    /// Storage account name.
    pub account_name: String,
    /// Container name.
    pub container_name: String,
    /// Use the platform's credential chain instead of the access key.
    pub use_managed_identity: bool,
    /// Account access key; required when managed identity is off.
    pub access_key: Option<String>,
    /// Talk to the local storage emulator.
    pub use_emulator: bool,
}

/// Google Cloud Storage settings.
#[derive(Debug, Clone)]
pub struct GcpConfig {
    /// Bucket name.
    pub bucket_name: String,
    /// Use Application Default Credentials instead of a service account.
    pub use_managed_identity: bool,
    /// Path of a service account JSON key file.
    pub service_account_path: Option<String>,
    /// Service account JSON key, inline.
    pub service_account_key: Option<String>,
}

/// The one provider this process serves, with its settings.
#[derive(Debug, Clone)]
pub enum BackendConfig {
    /// AWS S3
    Aws(AwsConfig),
    /// Azure Blob Storage
    Azure(AzureConfig),
    /// Google Cloud Storage
    Gcp(GcpConfig),
}

/// HTTP server tuning.
#[derive(Debug, Clone)]
pub struct ServerConfig {
    /// Socket address to listen on, as text (`host:port`).
    pub bind_address: String,
    /// Request timeout in seconds.
    pub timeout_secs: u64,
    /// Largest request body accepted, in bytes.
    pub max_body_size: u64,
}

/// Default listen address.
pub fn default_bind_address() -> (r: String)
    ensures
        r@ == "0.0.0.0:8080"@,
{
    String::from_str("0.0.0.0:8080")
}

/// Default request timeout: five minutes.
pub fn default_timeout_secs() -> (r: u64)
    ensures
        r == 300,
{
    300
}

/// Default largest body: 5 GiB.
pub fn default_max_body_size() -> (r: u64)
    ensures
        r == 5 * 1024 * 1024 * 1024,
{
    5 * 1024 * 1024 * 1024
}

/// The whole configuration.
#[derive(Debug, Clone)]
pub struct Config {
    /// Server tuning.
    pub server: ServerConfig,
    /// Provider selection and settings.
    pub backend: BackendConfig,
    /// Prefix put before every object key.
    pub prefix: Option<String>,
    /// Log level.
    pub log_level: String,
}

/// Default log level.
pub fn default_log_level() -> (r: String)
    ensures
        r@ == "info"@,
{
    String::from_str("info")
}

/// The value of each environment variable that configuration reads, or
/// `None` where it is unset.
#[derive(Debug, Clone, Default)]
pub struct EnvVars {
    /// `S3PROXY_BACKEND_TYPE`
    pub backend_type: Option<String>,
    /// `S3PROXY_BACKEND_CONTAINER`
    pub backend_container: Option<String>,
    /// `S3PROXY_BACKEND_PREFIX`
    pub backend_prefix: Option<String>,
    /// `S3PROXY_BIND_ADDRESS`
    pub bind_address: Option<String>,
    /// `S3PROXY_TIMEOUT_SECS`
    pub timeout_secs: Option<String>,
    /// `S3PROXY_MAX_BODY_SIZE`
    pub max_body_size: Option<String>,
    /// `S3PROXY_LOG_LEVEL`
    pub log_level: Option<String>,
    /// `S3PROXY_AWS_BUCKET`
    pub aws_bucket: Option<String>,
    /// `S3PROXY_AWS_REGION`
    pub aws_region: Option<String>,
    /// `S3PROXY_AWS_ENDPOINT`
    pub aws_endpoint: Option<String>,
    /// `S3PROXY_AWS_USE_MANAGED_IDENTITY`
    pub aws_use_managed_identity: Option<String>,
    /// `S3PROXY_AWS_ACCESS_KEY_ID`
    pub aws_access_key_id: Option<String>,
    /// `S3PROXY_AWS_SECRET_ACCESS_KEY`
    pub aws_secret_access_key: Option<String>,
    /// `S3PROXY_AWS_ALLOW_HTTP`
    pub aws_allow_http: Option<String>,
    /// `S3PROXY_AZURE_ACCOUNT_NAME`
    pub azure_account_name: Option<String>,
    /// `S3PROXY_AZURE_CONTAINER_NAME`
    pub azure_container_name: Option<String>,
    /// `S3PROXY_AZURE_USE_MANAGED_IDENTITY`
    pub azure_use_managed_identity: Option<String>,
    /// `S3PROXY_AZURE_ACCESS_KEY`
    pub azure_access_key: Option<String>,
    /// `S3PROXY_AZURE_USE_EMULATOR`
    pub azure_use_emulator: Option<String>,
    /// `S3PROXY_GCP_BUCKET`
    pub gcp_bucket: Option<String>,
    /// `S3PROXY_GCP_USE_MANAGED_IDENTITY`
    pub gcp_use_managed_identity: Option<String>,
    /// `S3PROXY_GCP_SERVICE_ACCOUNT_PATH`
    pub gcp_service_account_path: Option<String>,
    /// `S3PROXY_GCP_SERVICE_ACCOUNT_KEY`
    pub gcp_service_account_key: Option<String>,
}

/// Why a configuration could not be built.
#[derive(Debug, Clone)]
pub enum ConfigError {
    /// The provider name selects no provider; holds the message.
    UnknownBackendType(String),
    /// No AWS bucket was named.
    MissingAwsBucket,
    /// No Azure account was named.
    MissingAzureAccount,
    /// No Azure container was named.
    MissingAzureContainer,
    /// No GCP bucket was named.
    MissingGcpBucket,
    /// The timeout is not an unsigned decimal number.
    InvalidTimeout,
    /// The body size limit is not an unsigned decimal number.
    InvalidMaxBodySize,
    /// Explicit AWS credentials were asked for and one of the keys is missing.
    MissingAwsCredentials,
    /// Explicit Azure credentials were asked for and the access key is missing.
    MissingAzureAccessKey,
    /// Explicit GCP credentials were asked for and neither a key file nor a key
    /// was given.
    MissingGcpCredentials,
}

/// How a configuration error describes itself.
pub open spec fn config_error_text(e: ConfigError) -> Seq<char> {
    match e {
        ConfigError::UnknownBackendType(m) => m@,
        ConfigError::MissingAwsBucket => "S3PROXY_AWS_BUCKET or S3PROXY_BACKEND_CONTAINER must be set"@,
        ConfigError::MissingAzureAccount => "S3PROXY_AZURE_ACCOUNT_NAME must be set"@,
        ConfigError::MissingAzureContainer => "S3PROXY_AZURE_CONTAINER_NAME or S3PROXY_BACKEND_CONTAINER must be set"@,
        ConfigError::MissingGcpBucket => "S3PROXY_GCP_BUCKET or S3PROXY_BACKEND_CONTAINER must be set"@,
        ConfigError::InvalidTimeout => "S3PROXY_TIMEOUT_SECS is not an unsigned number"@,
        ConfigError::InvalidMaxBodySize => "S3PROXY_MAX_BODY_SIZE is not an unsigned number"@,
        ConfigError::MissingAwsCredentials => "AWS credentials (access_key_id and secret_access_key) are required when use_managed_identity is false"@,
        ConfigError::MissingAzureAccessKey => "Azure access_key is required when use_managed_identity is false"@,
        ConfigError::MissingGcpCredentials => "GCP service account credentials (service_account_path or service_account_key) are required when use_managed_identity is false"@,
    }
}

impl ConfigError {
    /// How the error describes itself.
    pub fn message(&self) -> (r: String)
        ensures
            r@ == config_error_text(*self),
    {
        match self {
            ConfigError::UnknownBackendType(m) => m.clone(),
            ConfigError::MissingAwsBucket => String::from_str(
                "S3PROXY_AWS_BUCKET or S3PROXY_BACKEND_CONTAINER must be set",
            ),
            ConfigError::MissingAzureAccount => String::from_str(
                "S3PROXY_AZURE_ACCOUNT_NAME must be set",
            ),
            ConfigError::MissingAzureContainer => String::from_str(
                "S3PROXY_AZURE_CONTAINER_NAME or S3PROXY_BACKEND_CONTAINER must be set",
            ),
            ConfigError::MissingGcpBucket => String::from_str(
                "S3PROXY_GCP_BUCKET or S3PROXY_BACKEND_CONTAINER must be set",
            ),
            ConfigError::InvalidTimeout => String::from_str(
                "S3PROXY_TIMEOUT_SECS is not an unsigned number",
            ),
            ConfigError::InvalidMaxBodySize => String::from_str(
                "S3PROXY_MAX_BODY_SIZE is not an unsigned number",
            ),
            ConfigError::MissingAwsCredentials => String::from_str(
                "AWS credentials (access_key_id and secret_access_key) are required when use_managed_identity is false",
            ),
            ConfigError::MissingAzureAccessKey => String::from_str(
                "Azure access_key is required when use_managed_identity is false",
            ),
            ConfigError::MissingGcpCredentials => String::from_str(
                "GCP service account credentials (service_account_path or service_account_key) are required when use_managed_identity is false",
            ),
        }
    }
}

/// The text of `v`, or `d` where it is unset.
pub open spec fn text_or(v: Option<String>, d: Seq<char>) -> Seq<char> {
    match v {
        Some(s) => s@,
        None => d,
    }
}

/// The first of two values that is set.
pub open spec fn first_set(a: Option<String>, b: Option<String>) -> Option<String> {
    match a {
        Some(x) => Some(x),
        None => b,
    }
}

/// A flag's value: `true` and `false` are read as such, anything else, or
/// nothing, gives the default.
pub open spec fn flag_value(v: Option<String>, default: bool) -> bool {
    match v {
        Some(s) => if s@ == "true"@ {
            true
        } else if s@ == "false"@ {
            false
        } else {
            default
        },
        None => default,
    }
}

/// A decimal digit.
pub open spec fn is_digit(c: char) -> bool {
    '0' <= c && c <= '9'
}

/// The number that a run of decimal digits writes.
pub open spec fn digits_value(s: Seq<char>) -> nat
    decreases s.len(),
{
    if s.len() == 0 {
        0
    } else {
        digits_value(s.drop_last()) * 10 + ((s.last() as u32) - ('0' as u32)) as nat
    }
}

/// Whether every character of `d` is a digit.
pub open spec fn all_digits(d: Seq<char>) -> bool {
    forall|i: int| 0 <= i < d.len() ==> is_digit(#[trigger] d[i])
}

/// `s` without a leading `+`.
pub open spec fn unsigned_digits(s: Seq<char>) -> Seq<char> {
    if s.len() > 0 && s[0] == '+' {
        s.drop_first()
    } else {
        s
    }
}

/// The number that `s` writes as an unsigned decimal: an optional `+`, then
/// one or more digits and nothing else.
pub open spec fn unsigned_value(s: Seq<char>) -> Option<nat> {
    let d = unsigned_digits(s);
    if d.len() > 0 && all_digits(d) {
        Some(digits_value(d))
    } else {
        None
    }
}

/// What `s` parses to as a `u64`.
pub open spec fn u64_value(s: Seq<char>) -> Option<u64> {
    match unsigned_value(s) {
        Some(v) => if v <= u64::MAX {
            Some(v as u64)
        } else {
            None
        },
        None => None,
    }
}

/// A run of digits writes at least what each of its prefixes writes.
pub proof fn lemma_digits_value_grows(t: Seq<char>, m: int)
    requires
        0 <= m <= t.len(),
        forall|i: int| 0 <= i < t.len() ==> is_digit(#[trigger] t[i]),
    ensures
        digits_value(t.subrange(0, m)) <= digits_value(t),
    decreases t.len(),
{
    if m < t.len() {
        let u = t.drop_last();
        assert forall|i: int| 0 <= i < u.len() implies is_digit(#[trigger] u[i]) by {
            assert(u[i] == t[i]);
        }
        lemma_digits_value_grows(u, m);
        assert(u.subrange(0, m) =~= t.subrange(0, m));
    } else {
        assert(t.subrange(0, m) =~= t);
    }
}

/// Reads an unsigned decimal as `<u64 as FromStr>` does: an optional `+`,
/// then one or more digits and nothing else, whose value fits in a `u64`.
pub fn parse_u64(s: &str) -> (r: Option<u64>)
    ensures
        r == u64_value(s@),
{
    let n = s.unicode_len();
    let start: usize = if n > 0 && s.get_char(0) == '+' {
        1
    } else {
        0
    };
    let ghost d = unsigned_digits(s@);
    assert(d =~= s@.subrange(start as int, n as int));
    if start >= n {
        return None;
    }
    let mut v: u64 = 0;
    let mut i: usize = start;
    while i < n
        invariant
            n == s@.len(),
            start <= i <= n,
            d == s@.subrange(start as int, n as int),
            d == unsigned_digits(s@),
            d.len() > 0,
            forall|k: int| 0 <= k < i - start ==> is_digit(#[trigger] d[k]),
            v as nat == digits_value(d.subrange(0, i - start)),
        decreases n - i,
    {
        let c = s.get_char(i);
        assert(d[i - start] == c);
        if c < '0' || c > '9' {
            assert(!is_digit(d[i - start]));
            assert(!all_digits(d));
            return None;
        }
        let digit: u64 = (c as u32 - '0' as u32) as u64;
        let ghost p = d.subrange(0, i - start + 1);
        assert(p.drop_last() =~= d.subrange(0, i - start));
        assert(p.last() == c);
        assert(digits_value(p) == v as nat * 10 + digit as nat);
        if v > (u64::MAX - digit) / 10 {
            assert(v as nat * 10 + digit as nat > u64::MAX) by (nonlinear_arith)
                requires
                    v > (u64::MAX - digit) / 10,
                    digit <= 9,
            ;
            proof {
                if all_digits(d) {
                    lemma_digits_value_grows(d, i - start + 1);
                    assert(digits_value(d) > u64::MAX);
                    assert(unsigned_value(s@) == Some(digits_value(d)));
                }
                assert(u64_value(s@) is None);
            }
            return None;
        }
        assert(v as nat * 10 + digit as nat <= u64::MAX) by (nonlinear_arith)
            requires
                v <= (u64::MAX - digit) / 10,
                digit <= 9,
        ;
        v = v * 10 + digit;
        i = i + 1;
    }
    assert(d.subrange(0, n - start) =~= d);
    Some(v)
}

/// Reads a flag as `bool`'s `FromStr` does: only `true` and `false`.
pub fn parse_flag(s: &str) -> (r: Option<bool>)
    ensures
        s@ == "true"@ ==> r == Some(true),
        s@ == "false"@ ==> r == Some(false),
        s@ != "true"@ && s@ != "false"@ ==> r is None,
{
    proof {
        reveal_strlit("true");
        reveal_strlit("false");
        assert("true"@[0] != "false"@[0]);
    }
    if text_eq(s, "true") {
        Some(true)
    } else if text_eq(s, "false") {
        Some(false)
    } else {
        None
    }
}

fn flag_or(v: &Option<String>, default: bool) -> (r: bool)
    ensures
        r == flag_value(*v, default),
{
    match v {
        Some(s) => match parse_flag(s.as_str()) {
            Some(b) => b,
            None => default,
        },
        None => default,
    }
}

pub(crate) fn copy_text(v: &Option<String>) -> (r: Option<String>)
    ensures
        r == *v,
{
    match v {
        Some(s) => Some(s.clone()),
        None => None,
    }
}

fn text_or_default(v: &Option<String>, d: &str) -> (r: String)
    ensures
        r@ == text_or(*v, d@),
{
    match v {
        Some(s) => s.clone(),
        None => String::from_str(d),
    }
}

fn first_set_of(a: &Option<String>, b: &Option<String>) -> (r: Option<String>)
    ensures
        r == first_set(*a, *b),
{
    match a {
        Some(x) => Some(x.clone()),
        None => copy_text(b),
    }
}

/// A number's value, or `d` where it is unset or not a valid `u64`.
pub open spec fn number_or(v: Option<String>, d: u64) -> u64 {
    match v {
        Some(s) => match u64_value(s@) {
            Some(n) => n,
            None => d,
        },
        None => d,
    }
}

/// Whether a number, where it is set, is a valid `u64`.
pub open spec fn number_valid(v: Option<String>) -> bool {
    match v {
        Some(s) => u64_value(s@) is Some,
        None => true,
    }
}

/// The provider that the environment selects (AWS where none is named).
pub open spec fn env_backend_type(env: EnvVars) -> Option<BackendType> {
    match env.backend_type {
        Some(s) => backend_type_named(lower_of(s@)),
        None => Some(BackendType::Aws),
    }
}

/// `c` holds the AWS settings read from `env` for `bucket`.
pub open spec fn aws_from_env(c: AwsConfig, bucket: String, env: EnvVars) -> bool {
    &&& c.bucket_name == bucket
    &&& c.region@ == text_or(env.aws_region, "us-east-1"@)
    &&& c.endpoint == env.aws_endpoint
    &&& c.use_managed_identity == flag_value(env.aws_use_managed_identity, true)
    &&& c.access_key_id == env.aws_access_key_id
    &&& c.secret_access_key == env.aws_secret_access_key
    &&& c.allow_http == flag_value(env.aws_allow_http, false)
}

/// `c` holds the Azure settings read from `env` for `account` and `container`.
pub open spec fn azure_from_env(
    c: AzureConfig,
    account: String,
    container: String,
    env: EnvVars,
) -> bool {
    &&& c.account_name == account
    &&& c.container_name == container
    &&& c.use_managed_identity == flag_value(env.azure_use_managed_identity, true)
    &&& c.access_key == env.azure_access_key
    &&& c.use_emulator == flag_value(env.azure_use_emulator, false)
}

/// `c` holds the GCP settings read from `env` for `bucket`.
pub open spec fn gcp_from_env(c: GcpConfig, bucket: String, env: EnvVars) -> bool {
    &&& c.bucket_name == bucket
    &&& c.use_managed_identity == flag_value(env.gcp_use_managed_identity, true)
    &&& c.service_account_path == env.gcp_service_account_path
    &&& c.service_account_key == env.gcp_service_account_key
}

/// `c` is the configuration that `env` alone describes: defaults where a
/// variable is unset (or, for numbers and flags, unreadable).
pub open spec fn env_only_config(env: EnvVars, c: Config) -> bool {
    &&& match env_backend_type(env) {
        Some(BackendType::Aws) => match first_set(env.aws_bucket, env.backend_container) {
            Some(b) => c.backend is Aws && aws_from_env(c.backend->Aws_0, b, env),
            None => false,
        },
        Some(BackendType::Azure) => match (
            env.azure_account_name,
            first_set(env.azure_container_name, env.backend_container),
        ) {
            (Some(a), Some(k)) => c.backend is Azure && azure_from_env(
                c.backend->Azure_0,
                a,
                k,
                env,
            ),
            _ => false,
        },
        Some(BackendType::Gcp) => match first_set(env.gcp_bucket, env.backend_container) {
            Some(b) => c.backend is Gcp && gcp_from_env(c.backend->Gcp_0, b, env),
            None => false,
        },
        None => false,
    }
    &&& c.server.bind_address@ == text_or(env.bind_address, "0.0.0.0:8080"@)
    &&& c.server.timeout_secs == number_or(env.timeout_secs, 300)
    &&& c.server.max_body_size == number_or(env.max_body_size, 5368709120u64)
    &&& c.prefix == env.backend_prefix
    &&& c.log_level@ == text_or(env.log_level, "info"@)
}

/// `e` is the error that building from `env` alone meets first.
pub open spec fn env_only_error(env: EnvVars, e: ConfigError) -> bool {
    match env_backend_type(env) {
        None => e is UnknownBackendType && e->UnknownBackendType_0@ == unknown_backend_message(
            env.backend_type->Some_0@,
        ),
        Some(BackendType::Aws) => first_set(env.aws_bucket, env.backend_container) is None
            && e == ConfigError::MissingAwsBucket,
        Some(BackendType::Azure) => if env.azure_account_name is None {
            e == ConfigError::MissingAzureAccount
        } else {
            first_set(env.azure_container_name, env.backend_container) is None
                && e == ConfigError::MissingAzureContainer
        },
        Some(BackendType::Gcp) => first_set(env.gcp_bucket, env.backend_container) is None
            && e == ConfigError::MissingGcpBucket,
    }
}

/// Whether building from `env` alone succeeds: the provider is known and its
/// names are present.
pub open spec fn env_only_ok(env: EnvVars) -> bool {
    match env_backend_type(env) {
        Some(BackendType::Aws) => first_set(env.aws_bucket, env.backend_container) is Some,
        Some(BackendType::Azure) => env.azure_account_name is Some && first_set(
            env.azure_container_name,
            env.backend_container,
        ) is Some,
        Some(BackendType::Gcp) => first_set(env.gcp_bucket, env.backend_container) is Some,
        None => false,
    }
}

/// A value, replaced by the override where one is set.
pub open spec fn over<T>(v: Option<T>, cur: T) -> T {
    match v {
        Some(x) => x,
        None => cur,
    }
}

/// An optional value, replaced by the override where one is set.
pub open spec fn over_opt<T>(v: Option<T>, cur: Option<T>) -> Option<T> {
    match v {
        Some(x) => Some(x),
        None => cur,
    }
}

/// A flag, replaced by the override's reading (`default` where it is
/// unreadable) where one is set.
pub open spec fn over_flag(v: Option<String>, cur: bool, default: bool) -> bool {
    match v {
        Some(_) => flag_value(v, default),
        None => cur,
    }
}

/// A number, replaced by the override's value where one is set.
pub open spec fn over_number(v: Option<String>, cur: u64) -> u64 {
    match v {
        Some(s) => u64_value(s@)->Some_0,
        None => cur,
    }
}

/// The provider settings of `b` with the environment's overrides applied.
pub open spec fn backend_overridden(b: BackendConfig, env: EnvVars) -> BackendConfig {
    match b {
        BackendConfig::Aws(a) => BackendConfig::Aws(
            AwsConfig {
                bucket_name: over(env.aws_bucket, a.bucket_name),
                region: over(env.aws_region, a.region),
                endpoint: over_opt(env.aws_endpoint, a.endpoint),
                use_managed_identity: over_flag(
                    env.aws_use_managed_identity,
                    a.use_managed_identity,
                    true,
                ),
                access_key_id: over_opt(env.aws_access_key_id, a.access_key_id),
                secret_access_key: over_opt(env.aws_secret_access_key, a.secret_access_key),
                allow_http: over_flag(env.aws_allow_http, a.allow_http, false),
            },
        ),
        BackendConfig::Azure(z) => BackendConfig::Azure(
            AzureConfig {
                account_name: over(env.azure_account_name, z.account_name),
                container_name: over(env.azure_container_name, z.container_name),
                use_managed_identity: over_flag(
                    env.azure_use_managed_identity,
                    z.use_managed_identity,
                    true,
                ),
                access_key: over_opt(env.azure_access_key, z.access_key),
                use_emulator: over_flag(env.azure_use_emulator, z.use_emulator, false),
            },
        ),
        BackendConfig::Gcp(g) => BackendConfig::Gcp(
            GcpConfig {
                bucket_name: over(env.gcp_bucket, g.bucket_name),
                use_managed_identity: over_flag(
                    env.gcp_use_managed_identity,
                    g.use_managed_identity,
                    true,
                ),
                service_account_path: over_opt(
                    env.gcp_service_account_path,
                    g.service_account_path,
                ),
                service_account_key: over_opt(env.gcp_service_account_key, g.service_account_key),
            },
        ),
    }
}

/// `c` with every override that `env` sets applied.
pub open spec fn overridden(c: Config, env: EnvVars) -> Config {
    Config {
        server: ServerConfig {
            bind_address: over(env.bind_address, c.server.bind_address),
            timeout_secs: over_number(env.timeout_secs, c.server.timeout_secs),
            max_body_size: over_number(env.max_body_size, c.server.max_body_size),
        },
        backend: backend_overridden(c.backend, env),
        prefix: over_opt(env.backend_prefix, c.prefix),
        log_level: over(env.log_level, c.log_level),
    }
}

fn number_or_default(v: &Option<String>, d: u64) -> (r: u64)
    ensures
        r == number_or(*v, d),
{
    match v {
        Some(s) => match parse_u64(s.as_str()) {
            Some(n) => n,
            None => d,
        },
        None => d,
    }
}

fn env_backend(env: &EnvVars) -> (r: Result<BackendType, String>)
    ensures
        match env_backend_type(*env) {
            Some(t) => r == Ok::<BackendType, String>(t),
            None => r is Err && r->Err_0@ == unknown_backend_message(env.backend_type->Some_0@),
        },
{
    match &env.backend_type {
        Some(s) => BackendType::parse(s.as_str()),
        None => Ok(BackendType::Aws),
    }
}

impl Config {
    /// Builds the configuration from the environment alone.
    pub fn from_env_only(env: &EnvVars) -> (r: Result<Config, ConfigError>)
        ensures
            r is Ok <==> env_only_ok(*env),
            r is Ok ==> env_only_config(*env, r->Ok_0),
            r is Err ==> env_only_error(*env, r->Err_0),
    {
        let backend_type = match env_backend(env) {
            Ok(t) => t,
            Err(msg) => {
                return Err(ConfigError::UnknownBackendType(msg));
            },
        };
        let backend = match backend_type {
            BackendType::Aws => {
                let bucket_name = match first_set_of(&env.aws_bucket, &env.backend_container) {
                    Some(b) => b,
                    None => {
                        return Err(ConfigError::MissingAwsBucket);
                    },
                };
                BackendConfig::Aws(
                    AwsConfig {
                        bucket_name,
                        region: text_or_default(&env.aws_region, "us-east-1"),
                        endpoint: copy_text(&env.aws_endpoint),
                        use_managed_identity: flag_or(&env.aws_use_managed_identity, true),
                        access_key_id: copy_text(&env.aws_access_key_id),
                        secret_access_key: copy_text(&env.aws_secret_access_key),
                        allow_http: flag_or(&env.aws_allow_http, false),
                    },
                )
            },
            BackendType::Azure => {
                let account_name = match &env.azure_account_name {
                    Some(a) => a.clone(),
                    None => {
                        return Err(ConfigError::MissingAzureAccount);
                    },
                };
                let container_name = match first_set_of(
                    &env.azure_container_name,
                    &env.backend_container,
                ) {
                    Some(c) => c,
                    None => {
                        return Err(ConfigError::MissingAzureContainer);
                    },
                };
                BackendConfig::Azure(
                    AzureConfig {
                        account_name,
                        container_name,
                        use_managed_identity: flag_or(&env.azure_use_managed_identity, true),
                        access_key: copy_text(&env.azure_access_key),
                        use_emulator: flag_or(&env.azure_use_emulator, false),
                    },
                )
            },
            BackendType::Gcp => {
                let bucket_name = match first_set_of(&env.gcp_bucket, &env.backend_container) {
                    Some(b) => b,
                    None => {
                        return Err(ConfigError::MissingGcpBucket);
                    },
                };
                BackendConfig::Gcp(
                    GcpConfig {
                        bucket_name,
                        use_managed_identity: flag_or(&env.gcp_use_managed_identity, true),
                        service_account_path: copy_text(&env.gcp_service_account_path),
                        service_account_key: copy_text(&env.gcp_service_account_key),
                    },
                )
            },
        };
        Ok(
            Config {
                server: ServerConfig {
                    bind_address: text_or_default(&env.bind_address, "0.0.0.0:8080"),
                    timeout_secs: number_or_default(&env.timeout_secs, default_timeout_secs()),
                    max_body_size: number_or_default(
                        &env.max_body_size,
                        default_max_body_size(),
                    ),
                },
                backend,
                prefix: copy_text(&env.backend_prefix),
                log_level: text_or_default(&env.log_level, "info"),
            },
        )
    }

    /// Applies the environment's overrides; every variable that is set wins
    /// over what the configuration held. A timeout or body size that is not
    /// a `u64` is an error, and then nothing is changed.
    pub fn apply_env_overrides(&mut self, env: &EnvVars) -> (r: Result<(), ConfigError>)
        ensures
            !number_valid(env.timeout_secs) ==> r == Err::<(), ConfigError>(
                ConfigError::InvalidTimeout,
            ),
            number_valid(env.timeout_secs) && !number_valid(env.max_body_size) ==> r == Err::<
                (),
                ConfigError,
            >(ConfigError::InvalidMaxBodySize),
            number_valid(env.timeout_secs) && number_valid(env.max_body_size) ==> r is Ok,
            r is Ok ==> *final(self) == overridden(*old(self), *env),
            r is Err ==> *final(self) == *old(self),
    {
        let timeout = match &env.timeout_secs {
            Some(t) => match parse_u64(t.as_str()) {
                Some(n) => Some(n),
                None => {
                    return Err(ConfigError::InvalidTimeout);
                },
            },
            None => None,
        };
        let size = match &env.max_body_size {
            Some(t) => match parse_u64(t.as_str()) {
                Some(n) => Some(n),
                None => {
                    return Err(ConfigError::InvalidMaxBodySize);
                },
            },
            None => None,
        };
        if let Some(addr) = &env.bind_address {
            self.server.bind_address = addr.clone();
        }
        if let Some(n) = timeout {
            self.server.timeout_secs = n;
        }
        if let Some(n) = size {
            self.server.max_body_size = n;
        }
        if let Some(level) = &env.log_level {
            self.log_level = level.clone();
        }
        if let Some(prefix) = &env.backend_prefix {
            self.prefix = Some(prefix.clone());
        }
        match &mut self.backend {
            BackendConfig::Aws(aws) => {
                if let Some(bucket) = &env.aws_bucket {
                    aws.bucket_name = bucket.clone();
                }
                if let Some(region) = &env.aws_region {
                    aws.region = region.clone();
                }
                if let Some(endpoint) = &env.aws_endpoint {
                    aws.endpoint = Some(endpoint.clone());
                }
                if env.aws_use_managed_identity.is_some() {
                    aws.use_managed_identity = flag_or(&env.aws_use_managed_identity, true);
                }
                if let Some(key_id) = &env.aws_access_key_id {
                    aws.access_key_id = Some(key_id.clone());
                }
                if let Some(secret) = &env.aws_secret_access_key {
                    aws.secret_access_key = Some(secret.clone());
                }
                if env.aws_allow_http.is_some() {
                    aws.allow_http = flag_or(&env.aws_allow_http, false);
                }
            },
            BackendConfig::Azure(azure) => {
                if let Some(account) = &env.azure_account_name {
                    azure.account_name = account.clone();
                }
                if let Some(container) = &env.azure_container_name {
                    azure.container_name = container.clone();
                }
                if env.azure_use_managed_identity.is_some() {
                    azure.use_managed_identity = flag_or(&env.azure_use_managed_identity, true);
                }
                if let Some(key) = &env.azure_access_key {
                    azure.access_key = Some(key.clone());
                }
                if env.azure_use_emulator.is_some() {
                    azure.use_emulator = flag_or(&env.azure_use_emulator, false);
                }
            },
            BackendConfig::Gcp(gcp) => {
                if let Some(bucket) = &env.gcp_bucket {
                    gcp.bucket_name = bucket.clone();
                }
                if env.gcp_use_managed_identity.is_some() {
                    gcp.use_managed_identity = flag_or(&env.gcp_use_managed_identity, true);
                }
                if let Some(path) = &env.gcp_service_account_path {
                    gcp.service_account_path = Some(path.clone());
                }
                if let Some(key) = &env.gcp_service_account_key {
                    gcp.service_account_key = Some(key.clone());
                }
            },
        }
        Ok(())
    }

    /// Builds the configuration: from the file's contents where a file was
    /// given, else from the environment alone; then the environment's
    /// overrides are applied.
    pub fn from_env(file: Option<Config>, env: &EnvVars) -> (r: Result<Config, ConfigError>)
        ensures
            file is Some ==> (r is Ok <==> number_valid(env.timeout_secs) && number_valid(
                env.max_body_size,
            )),
            file is Some && r is Ok ==> r->Ok_0 == overridden(file->Some_0, *env),
            file is None ==> (r is Ok <==> env_only_ok(*env) && number_valid(env.timeout_secs)
                && number_valid(env.max_body_size)),
            file is None && r is Ok ==> exists|c: Config|
                env_only_config(*env, c) && r->Ok_0 == #[trigger] overridden(c, *env),
            file is None && !env_only_ok(*env) ==> r is Err && env_only_error(*env, r->Err_0),
            (file is Some || env_only_ok(*env)) && !number_valid(env.timeout_secs) ==> r == Err::<
                Config,
                ConfigError,
            >(ConfigError::InvalidTimeout),
            (file is Some || env_only_ok(*env)) && number_valid(env.timeout_secs)
                && !number_valid(env.max_body_size) ==> r == Err::<Config, ConfigError>(
                ConfigError::InvalidMaxBodySize,
            ),
    {
        let mut config = match file {
            Some(c) => c,
            None => Config::from_env_only(env)?,
        };
        let ghost base = config;
        config.apply_env_overrides(env)?;
        assert(config == overridden(base, *env));
        Ok(config)
    }

    /// The provider that the configuration selects.
    pub fn backend_type(&self) -> (r: BackendType)
        ensures
            r == (match self.backend {
                BackendConfig::Aws(_) => BackendType::Aws,
                BackendConfig::Azure(_) => BackendType::Azure,
                BackendConfig::Gcp(_) => BackendType::Gcp,
            }),
    {
        match self.backend {
            BackendConfig::Aws(_) => BackendType::Aws,
            BackendConfig::Azure(_) => BackendType::Azure,
            BackendConfig::Gcp(_) => BackendType::Gcp,
        }
    }
}

} // verus!
