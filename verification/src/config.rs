//! The configuration that the process needs before it starts anything.
//!
//! Two settings are required. The caller reads them from the environment
//! and hands over what it found; a setting that is absent or empty is
//! missing.

use vstd::prelude::*;
use vstd::string::StringExecFns;

verus! {

/// A setting that must be present.
#[derive(Clone, Copy, Debug, PartialEq, Eq, Structural)]
pub enum RequiredKey {
    /// The database connection string.
    DatabaseUrl,
    /// The URL of the RPC endpoint.
    SolanaRpcUrl,
}

impl RequiredKey {
    /// The name of the environment variable that holds the setting.
    pub open spec fn name_spec(self) -> Seq<char> {
        match self {
            RequiredKey::DatabaseUrl => "DATABASE_URL"@,
            RequiredKey::SolanaRpcUrl => "SOLANA_RPC_URL"@,
        }
    }

    /// The label under which the setting is reported once loaded.
    pub open spec fn label_spec(self) -> Seq<char> {
        match self {
            RequiredKey::DatabaseUrl => "Database URL: "@,
            RequiredKey::SolanaRpcUrl => "Solana RPC URL: "@,
        }
    }

    /// The name of the environment variable that holds the setting.
    pub fn name(self) -> (name: &'static str)
        ensures
            name@ == self.name_spec(),
    {
        match self {
            RequiredKey::DatabaseUrl => "DATABASE_URL",
            RequiredKey::SolanaRpcUrl => "SOLANA_RPC_URL",
        }
    }

    /// The label under which the setting is reported once loaded.
    pub fn label(self) -> (label: &'static str)
        ensures
            label@ == self.label_spec(),
    {
        match self {
            RequiredKey::DatabaseUrl => "Database URL: ",
            RequiredKey::SolanaRpcUrl => "Solana RPC URL: ",
        }
    }
}

/// Why no configuration could be made.
#[derive(Clone, Copy, Debug, PartialEq, Eq, Structural)]
pub enum ConfigError {
    /// A required setting is absent or empty.
    ConfigurationMissing(RequiredKey),
}

impl ConfigError {
    /// The setting that is missing.
    pub open spec fn key_spec(self) -> RequiredKey {
        match self {
            ConfigError::ConfigurationMissing(key) => key,
        }
    }

    /// The setting that is missing.
    pub fn key(&self) -> (key: RequiredKey)
        ensures
            key == self.key_spec(),
    {
        match self {
            ConfigError::ConfigurationMissing(key) => *key,
        }
    }

    /// The failure in words: the variable's name, then ` must be set`.
    pub fn message(&self) -> (text: String)
        ensures
            text@ == self.key_spec().name_spec() + " must be set"@,
    {
        let mut text = String::from_str(self.key().name());
        text.append(" must be set");
        text
    }
}

/// What a [`Config`] holds.
pub struct ConfigView {
    pub database_url: Seq<char>,
    pub solana_rpc_url: Seq<char>,
}

impl ConfigView {
    /// The value of a setting.
    pub open spec fn value(self, key: RequiredKey) -> Seq<char> {
        match key {
            RequiredKey::DatabaseUrl => self.database_url,
            RequiredKey::SolanaRpcUrl => self.solana_rpc_url,
        }
    }

    /// No required setting is empty.
    pub open spec fn complete(self) -> bool {
        self.database_url.len() > 0 && self.solana_rpc_url.len() > 0
    }
}

/// The configuration of the process. It is made once, by [`load_env`], and
/// does not change. Every value of this type is complete.
#[derive(Debug, PartialEq, Eq)]
pub struct Config {
    database_url: String,
    solana_rpc_url: String,
}

impl View for Config {
    type V = ConfigView;

    closed spec fn view(&self) -> ConfigView {
        ConfigView { database_url: self.database_url@, solana_rpc_url: self.solana_rpc_url@ }
    }
}

impl Clone for Config {
    fn clone(&self) -> (copy: Config)
        ensures
            copy@ == self@,
    {
        proof {
            use_type_invariant(self);
        }
        Config {
            database_url: self.database_url.clone(),
            solana_rpc_url: self.solana_rpc_url.clone(),
        }
    }
}

impl Config {
    #[verifier::type_invariant]
    spec fn is_complete(&self) -> bool {
        self.database_url@.len() > 0 && self.solana_rpc_url@.len() > 0
    }

    /// The value of a setting. It is never empty.
    pub fn get(&self, key: RequiredKey) -> (value: &str)
        ensures
            value@ == self@.value(key),
            value@.len() > 0,
            self@.complete(),
    {
        proof {
            use_type_invariant(self);
        }
        match key {
            RequiredKey::DatabaseUrl => self.database_url.as_str(),
            RequiredKey::SolanaRpcUrl => self.solana_rpc_url.as_str(),
        }
    }

    /// The database connection string.
    pub fn database_url(&self) -> (value: &str)
        ensures
            value@ == self@.database_url,
            value@.len() > 0,
    {
        self.get(RequiredKey::DatabaseUrl)
    }

    /// The URL of the RPC endpoint.
    pub fn solana_rpc_url(&self) -> (value: &str)
        ensures
            value@ == self@.solana_rpc_url,
            value@.len() > 0,
    {
        self.get(RequiredKey::SolanaRpcUrl)
    }

    /// One line for each setting, for the caller to print: the setting's
    /// label, then its value. The values are written out in full, so the
    /// lines are not fit for a log that others can read.
    pub fn diagnostics(&self) -> (lines: Vec<String>)
        ensures
            lines@.len() == 2,
            lines@[0]@ == RequiredKey::DatabaseUrl.label_spec() + self@.database_url,
            lines@[1]@ == RequiredKey::SolanaRpcUrl.label_spec() + self@.solana_rpc_url,
    {
        let mut first = String::from_str(RequiredKey::DatabaseUrl.label());
        first.append(self.database_url());
        let mut second = String::from_str(RequiredKey::SolanaRpcUrl.label());
        second.append(self.solana_rpc_url());
        let mut lines: Vec<String> = Vec::new();
        lines.push(first);
        lines.push(second);
        lines
    }
}

/// What was found under a key: the characters of the value, if there is one.
pub open spec fn found(value: Option<String>) -> Option<Seq<char>> {
    match value {
        Some(text) => Some(text@),
        None => None,
    }
}

/// The setting is there and not empty.
pub open spec fn present(value: Option<Seq<char>>) -> bool {
    value matches Some(text) && text.len() > 0
}

/// The first required setting that is missing, the database connection
/// string before the RPC endpoint, or `None` where both are present.
pub open spec fn first_missing(
    database_url: Option<Seq<char>>,
    solana_rpc_url: Option<Seq<char>>,
) -> Option<RequiredKey> {
    if !present(database_url) {
        Some(RequiredKey::DatabaseUrl)
    } else if !present(solana_rpc_url) {
        Some(RequiredKey::SolanaRpcUrl)
    } else {
        None
    }
}

/// What loading gives for the two values found.
pub open spec fn load_outcome(
    database_url: Option<Seq<char>>,
    solana_rpc_url: Option<Seq<char>>,
) -> Result<ConfigView, ConfigError> {
    match first_missing(database_url, solana_rpc_url) {
        Some(key) => Err(ConfigError::ConfigurationMissing(key)),
        None => Ok(
            ConfigView { database_url: database_url->0, solana_rpc_url: solana_rpc_url->0 },
        ),
    }
}

/// What a result of loading holds.
pub open spec fn loaded(r: Result<Config, ConfigError>) -> Result<ConfigView, ConfigError> {
    match r {
        Ok(config) => Ok(config@),
        Err(e) => Err(e),
    }
}

/// Makes the configuration from what the environment holds under
/// `DATABASE_URL` and `SOLANA_RPC_URL`.
///
/// It succeeds exactly when both are present and not empty, and then holds
/// both unchanged. Otherwise it names the first one that is missing.
pub fn load_env(database_url: Option<String>, solana_rpc_url: Option<String>) -> (r: Result<
    Config,
    ConfigError,
>)
    ensures
        loaded(r) == load_outcome(found(database_url), found(solana_rpc_url)),
{
    let database_url = match database_url {
        Some(value) => {
            if value.as_str().is_empty() {
                return Err(ConfigError::ConfigurationMissing(RequiredKey::DatabaseUrl));
            }
            value
        },
        None => {
            return Err(ConfigError::ConfigurationMissing(RequiredKey::DatabaseUrl));
        },
    };
    let solana_rpc_url = match solana_rpc_url {
        Some(value) => {
            if value.as_str().is_empty() {
                return Err(ConfigError::ConfigurationMissing(RequiredKey::SolanaRpcUrl));
            }
            value
        },
        None => {
            return Err(ConfigError::ConfigurationMissing(RequiredKey::SolanaRpcUrl));
        },
    };
    Ok(Config { database_url, solana_rpc_url })
}

/// Loading fails exactly when a required setting is absent or empty, and
/// a failure names a setting that is indeed missing.
pub proof fn config_completeness(
    database_url: Option<Seq<char>>,
    solana_rpc_url: Option<Seq<char>>,
)
    ensures
        load_outcome(database_url, solana_rpc_url) is Err <==> !present(database_url) || !present(
            solana_rpc_url,
        ),
        load_outcome(database_url, solana_rpc_url) matches Err(e) ==> !present(
            match e.key_spec() {
                RequiredKey::DatabaseUrl => database_url,
                RequiredKey::SolanaRpcUrl => solana_rpc_url,
            },
        ),
        load_outcome(database_url, solana_rpc_url) matches Ok(config) ==> config.complete()
            && Some(config.database_url) == database_url && Some(config.solana_rpc_url)
            == solana_rpc_url,
{
}

} // verus!
