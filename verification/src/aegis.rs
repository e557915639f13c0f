//! The control-plane client for the remote backend, built from configured
//! values and a stored credential, and the tokens that accompany its
//! requests.
//!
//! Loading the configuration and the credential store from disk, and the
//! client's transport, belong to the surrounding process; here the
//! configured values are plain data, the credential store is a key-value
//! table, and building the client is the validation the configuration must
//! pass.

use vstd::prelude::*;
use vstd::string::*;

use rand::Rng;

use crate::kvlist::{lookup, set_entry, spec_lookup, unique_keys};
use crate::text::{spec_decimal, trim_of, trimmed, decimal_string};

verus! {

/// The configured coordinates of the remote backend: its base URL and the
/// credential-store key of the access token. Either may be absent.
#[derive(Clone, Debug)]
pub struct AegisSettings {
    pub base_url: Option<String>,
    pub access_jwt_key: Option<String>,
}

/// The loaded configuration, as far as the engine reads it.
#[derive(Clone, Debug)]
pub struct Config {
    pub aegis: AegisSettings,
}

/// The credential store: named secrets, each name held once. The
/// surrounding process keeps it encrypted at rest; here it is the table of
/// what `store` put in.
pub struct Vault {
    entries: Vec<(String, String)>,
}

impl Vault {
    /// The stored `(name, secret)` pairs.
    pub closed spec fn secrets(self) -> Seq<(String, String)> {
        self.entries@
    }

    /// Each name is held at most once.
    pub open spec fn wf(self) -> bool {
        unique_keys(self.secrets())
    }

    /// An empty store.
    pub fn new() -> (r: Self)
        ensures
            r.wf(),
            r.secrets() == Seq::<(String, String)>::empty(),
    {
        Vault { entries: Vec::new() }
    }

    /// Stores `value` under `key`, replacing any previous secret of that
    /// name.
    pub fn store(&mut self, key: &str, value: &str)
        requires
            old(self).wf(),
        ensures
            final(self).wf(),
            forall|k: Seq<char>|
                #[trigger] spec_lookup(final(self).secrets(), k) == if k == key@ {
                    Some(value@)
                } else {
                    spec_lookup(old(self).secrets(), k)
                },
    {
        set_entry(&mut self.entries, key.to_owned(), value.to_owned());
    }

    /// Fetches a copy of the secret stored under `key`, if any.
    pub fn retrieve(&self, key: &str) -> (r: Option<String>)
        ensures
            match r {
                Some(v) => spec_lookup(self.secrets(), key@) == Some(v@),
                None => spec_lookup(self.secrets(), key@) is None,
            },
    {
        lookup(&self.entries, key)
    }
}

/// A configured client for the remote backend's control plane: where to
/// reach it and the access token to present.
#[derive(Clone, Debug)]
pub struct ControlPlaneClient {
    pub base_url: String,
    pub access_jwt: String,
}

impl ControlPlaneClient {
    /// A client holding the given coordinates.
    pub fn new(base_url: &str, access_jwt: &str) -> (r: Self)
        ensures
            r.base_url@ == base_url@,
            r.access_jwt@ == access_jwt@,
    {
        ControlPlaneClient { base_url: base_url.to_owned(), access_jwt: access_jwt.to_owned() }
    }
}

/// Why the client could not be built from the configuration.
#[derive(Clone, Copy, PartialEq, Eq, Structural, Debug)]
pub enum AegisError {
    /// The configuration holds no usable base URL.
    MissingBaseUrl,
    /// The configuration holds no usable credential-store key.
    MissingAccessJwtKey,
    /// The credential store holds no secret under the configured key.
    SecretNotFound,
}

impl AegisError {
    /// The operator-facing description of the failure.
    pub open spec fn spec_message(self) -> Seq<char> {
        match self {
            AegisError::MissingBaseUrl => "missing aegis.base_url in config"@,
            AegisError::MissingAccessJwtKey => "missing aegis.access_jwt_key in config"@,
            AegisError::SecretNotFound => "access token not found in vault"@,
        }
    }

    /// Renders the operator-facing description.
    pub fn message(&self) -> (r: String)
        ensures
            r@ == self.spec_message(),
    {
        match self {
            AegisError::MissingBaseUrl => String::from_str("missing aegis.base_url in config"),
            AegisError::MissingAccessJwtKey => String::from_str(
                "missing aegis.access_jwt_key in config",
            ),
            AegisError::SecretNotFound => String::from_str("access token not found in vault"),
        }
    }
}

/// What building the client from a configuration and a credential table
/// yields: the client's `(base_url, access_jwt)` coordinates, or the first
/// failure in the order the configuration is read — absent base URL,
/// absent key, blank base URL, blank key, missing secret.
pub open spec fn spec_aegis_outcome(aegis: AegisSettings, vault: Seq<(String, String)>) -> Result<
    (Seq<char>, Seq<char>),
    AegisError,
> {
    if aegis.base_url is None {
        Err(AegisError::MissingBaseUrl)
    } else if aegis.access_jwt_key is None {
        Err(AegisError::MissingAccessJwtKey)
    } else if trim_of(aegis.base_url->0@).len() == 0 {
        Err(AegisError::MissingBaseUrl)
    } else if trim_of(aegis.access_jwt_key->0@).len() == 0 {
        Err(AegisError::MissingAccessJwtKey)
    } else {
        match spec_lookup(vault, trim_of(aegis.access_jwt_key->0@)) {
            None => Err(AegisError::SecretNotFound),
            Some(secret) => Ok((trim_of(aegis.base_url->0@), trim_of(secret))),
        }
    }
}

/// Builds a `ControlPlaneClient` from pre-loaded configuration and
/// credential-store references: the base URL and store key must be present
/// and non-blank after trimming, and the store must hold the access token
/// under the trimmed key.
pub fn build_aegis_client(config: &Config, vault: &Vault) -> (r: Result<
    ControlPlaneClient,
    AegisError,
>)
    ensures
        match r {
            Ok(c) => spec_aegis_outcome(config.aegis, vault.secrets()) == Ok::<
                (Seq<char>, Seq<char>),
                AegisError,
            >((c.base_url@, c.access_jwt@)),
            Err(e) => spec_aegis_outcome(config.aegis, vault.secrets()) == Err::<
                (Seq<char>, Seq<char>),
                AegisError,
            >(e),
        },
{
    let base_url = match &config.aegis.base_url {
        Some(u) => u,
        None => {
            return Err(AegisError::MissingBaseUrl);
        },
    };
    let jwt_key = match &config.aegis.access_jwt_key {
        Some(k) => k,
        None => {
            return Err(AegisError::MissingAccessJwtKey);
        },
    };
    let base_trimmed = trimmed(base_url.as_str());
    let key_trimmed = trimmed(jwt_key.as_str());
    if base_trimmed.as_str().is_empty() {
        return Err(AegisError::MissingBaseUrl);
    }
    if key_trimmed.as_str().is_empty() {
        return Err(AegisError::MissingAccessJwtKey);
    }
    match vault.retrieve(key_trimmed.as_str()) {
        None => Err(AegisError::SecretNotFound),
        Some(secret) => {
            let access_jwt = trimmed(secret.as_str());
            Ok(ControlPlaneClient::new(base_trimmed.as_str(), access_jwt.as_str()))
        },
    }
}

/// Whether a character is one of the 62 ASCII alphanumerics.
pub open spec fn is_ascii_alphanumeric(c: char) -> bool {
    ('0' <= c && c <= '9') || ('a' <= c && c <= 'z') || ('A' <= c && c <= 'Z')
}

/// Generates a random alphanumeric token of the given length.
///
/// Relies on rand's `Alphanumeric` distribution: each sample is one of the
/// 62 ASCII alphanumeric characters, so the result holds exactly `len` of
/// them. The values are random; nothing more is promised.
#[verifier::external_body]
pub fn generate_token(len: usize) -> (r: String)
    ensures
        r@.len() == len,
        forall|i: int| 0 <= i < r@.len() ==> is_ascii_alphanumeric(#[trigger] r@[i]),
{
    rand::thread_rng()
        .sample_iter(&rand::distributions::Alphanumeric)
        .take(len)
        .map(char::from)
        .collect()
}

/// Relies on std's `SystemTime`: the wall clock's milliseconds since the
/// Unix epoch — zero if the clock reads before the epoch. The value
/// depends on when it is read; nothing is promised of it.
#[verifier::external_body]
fn now_unix_millis() -> u64 {
    std::time::SystemTime::now()
        .duration_since(std::time::UNIX_EPOCH)
        .unwrap_or_default()
        .as_millis()
        .try_into()
        .unwrap_or(u64::MAX)
}

/// Joins a timestamp and a token into a prefixed idempotency key.
pub fn make_idempotency_key(ts_millis: u64, token: &str) -> (r: String)
    ensures
        r@ == "telemy-"@ + spec_decimal(ts_millis as nat) + "-"@ + token@,
{
    let mut s = String::from_str("telemy-");
    let ts = decimal_string(ts_millis);
    s.append(ts.as_str());
    s.append("-");
    s.append(token);
    s
}

/// Generates a prefixed idempotency key from the current time and a random
/// 12-character alphanumeric suffix.
pub fn generate_idempotency_key() -> (r: String)
    ensures
        exists|ts: u64, token: Seq<char>|
            {
                &&& token.len() == 12
                &&& (forall|i: int| 0 <= i < token.len() ==> is_ascii_alphanumeric(
                    #[trigger] token[i],
                ))
                &&& r@ == "telemy-"@ + spec_decimal(ts as nat) + "-"@ + token
            },
{
    let ts = now_unix_millis();
    let token = generate_token(12);
    let key = make_idempotency_key(ts, token.as_str());
    proof {
        let witness_token = token@;
        assert(witness_token.len() == 12 && (forall|i: int|
            0 <= i < witness_token.len() ==> is_ascii_alphanumeric(#[trigger] witness_token[i]))
            && key@ == "telemy-"@ + spec_decimal(ts as nat) + "-"@ + witness_token);
    }
    key
}

} // verus!
