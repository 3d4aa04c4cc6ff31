use backend::config::{load_env, Config, ConfigError, RequiredKey};

fn some(text: &str) -> Option<String> {
    Some(text.to_string())
}

fn loaded() -> Config {
    load_env(some("postgres://user:pw@localhost/app"), some("http://127.0.0.1:8899")).unwrap()
}

#[test]
fn load_env_keeps_both_values() {
    let config = loaded();
    assert_eq!(config.database_url(), "postgres://user:pw@localhost/app");
    assert_eq!(config.solana_rpc_url(), "http://127.0.0.1:8899");
    assert_eq!(config.get(RequiredKey::DatabaseUrl), "postgres://user:pw@localhost/app");
    assert_eq!(config.get(RequiredKey::SolanaRpcUrl), "http://127.0.0.1:8899");
}

#[test]
fn load_env_does_not_judge_the_values() {
    let config = load_env(some("x"), some(" ")).unwrap();
    assert_eq!(config.database_url(), "x");
    assert_eq!(config.solana_rpc_url(), " ");
}

#[test]
fn load_env_without_database_url() {
    let r = load_env(None, some("http://127.0.0.1:8899"));
    assert_eq!(r, Err(ConfigError::ConfigurationMissing(RequiredKey::DatabaseUrl)));
}

#[test]
fn load_env_without_rpc_url() {
    let r = load_env(some("postgres://localhost/app"), None);
    assert_eq!(r, Err(ConfigError::ConfigurationMissing(RequiredKey::SolanaRpcUrl)));
}

#[test]
fn load_env_without_anything_names_the_database_first() {
    let r = load_env(None, None);
    assert_eq!(r, Err(ConfigError::ConfigurationMissing(RequiredKey::DatabaseUrl)));
}

#[test]
fn load_env_takes_an_empty_value_for_missing() {
    assert_eq!(
        load_env(some(""), some("http://127.0.0.1:8899")),
        Err(ConfigError::ConfigurationMissing(RequiredKey::DatabaseUrl))
    );
    assert_eq!(
        load_env(some("postgres://localhost/app"), some("")),
        Err(ConfigError::ConfigurationMissing(RequiredKey::SolanaRpcUrl))
    );
    assert_eq!(
        load_env(some(""), some("")),
        Err(ConfigError::ConfigurationMissing(RequiredKey::DatabaseUrl))
    );
    assert_eq!(
        load_env(some(""), None),
        Err(ConfigError::ConfigurationMissing(RequiredKey::DatabaseUrl))
    );
}

#[test]
fn every_incomplete_subset_of_the_keys_fails() {
    let database = "postgres://localhost/app";
    let rpc = "http://127.0.0.1:8899";
    for with_database in [false, true] {
        for with_rpc in [false, true] {
            let r = load_env(
                if with_database { some(database) } else { None },
                if with_rpc { some(rpc) } else { None },
            );
            assert_eq!(r.is_ok(), with_database && with_rpc);
        }
    }
}

#[test]
fn key_names_are_the_environment_variables() {
    assert_eq!(RequiredKey::DatabaseUrl.name(), "DATABASE_URL");
    assert_eq!(RequiredKey::SolanaRpcUrl.name(), "SOLANA_RPC_URL");
}

#[test]
fn key_labels() {
    assert_eq!(RequiredKey::DatabaseUrl.label(), "Database URL: ");
    assert_eq!(RequiredKey::SolanaRpcUrl.label(), "Solana RPC URL: ");
}

#[test]
fn config_error_names_its_key() {
    let e = ConfigError::ConfigurationMissing(RequiredKey::SolanaRpcUrl);
    assert_eq!(e.key(), RequiredKey::SolanaRpcUrl);
    let e = ConfigError::ConfigurationMissing(RequiredKey::DatabaseUrl);
    assert_eq!(e.key(), RequiredKey::DatabaseUrl);
}

#[test]
fn config_error_message() {
    assert_eq!(
        ConfigError::ConfigurationMissing(RequiredKey::DatabaseUrl).message(),
        "DATABASE_URL must be set"
    );
    assert_eq!(
        ConfigError::ConfigurationMissing(RequiredKey::SolanaRpcUrl).message(),
        "SOLANA_RPC_URL must be set"
    );
}

#[test]
fn diagnostics_name_both_values() {
    let lines = loaded().diagnostics();
    assert_eq!(
        lines,
        vec![
            "Database URL: postgres://user:pw@localhost/app".to_string(),
            "Solana RPC URL: http://127.0.0.1:8899".to_string(),
        ]
    );
}

#[test]
fn config_clone_is_equal() {
    let config = loaded();
    let copy = config.clone();
    assert_eq!(copy, config);
    assert_eq!(copy.database_url(), config.database_url());
}
