use backend::config::load_env;
use backend::endpoint::is_well_formed_endpoint;
use backend::resources::{create_db_pool, create_solana_client, InitError, Resource};

#[test]
fn endpoints_with_a_scheme_are_well_formed() {
    assert!(is_well_formed_endpoint("http://127.0.0.1:8899"));
    assert!(is_well_formed_endpoint("https://api.mainnet-beta.solana.com"));
    assert!(is_well_formed_endpoint("postgres://user:pw@localhost:5432/app"));
    assert!(is_well_formed_endpoint("sqlite::memory:"));
    assert!(is_well_formed_endpoint("a:"));
    assert!(is_well_formed_endpoint("Z9+-.:rest"));
    assert!(is_well_formed_endpoint("localhost:8899"));
    assert!(is_well_formed_endpoint("http://h\u{e4}st"));
}

#[test]
fn endpoints_without_a_scheme_are_malformed() {
    assert!(!is_well_formed_endpoint(""));
    assert!(!is_well_formed_endpoint(":"));
    assert!(!is_well_formed_endpoint("://host"));
    assert!(!is_well_formed_endpoint("http"));
    assert!(!is_well_formed_endpoint("a"));
    assert!(!is_well_formed_endpoint("/var/run/db.sock"));
    assert!(!is_well_formed_endpoint("127.0.0.1:8899"));
    assert!(!is_well_formed_endpoint("1http://host"));
    assert!(!is_well_formed_endpoint("+http://host"));
    assert!(!is_well_formed_endpoint("ht tp://host"));
    assert!(!is_well_formed_endpoint("ht_tp://host"));
    assert!(!is_well_formed_endpoint(" http://host"));
    assert!(!is_well_formed_endpoint("\u{e4}:host"));
    assert!(!is_well_formed_endpoint("h\u{e4}:host"));
    assert!(!is_well_formed_endpoint("host/path:rest"));
}

fn config(database_url: &str, solana_rpc_url: &str) -> backend::config::Config {
    load_env(Some(database_url.to_string()), Some(solana_rpc_url.to_string())).unwrap()
}

#[test]
fn create_db_pool_holds_the_connection_string() {
    let pool = create_db_pool(&config("postgres://localhost/app", "not a url")).unwrap();
    assert_eq!(pool.url(), "postgres://localhost/app");
    assert_eq!(pool.clone(), pool);
}

#[test]
fn create_db_pool_rejects_a_malformed_connection_string() {
    let r = create_db_pool(&config("localhost/app", "http://127.0.0.1:8899"));
    assert_eq!(r, Err(InitError::ResourceInitFailed(Resource::DatabasePool)));
}

#[test]
fn create_solana_client_holds_the_endpoint() {
    let client = create_solana_client(&config("not a url", "http://127.0.0.1:8899")).unwrap();
    assert_eq!(client.endpoint(), "http://127.0.0.1:8899");
    assert_eq!(client.clone(), client);
}

#[test]
fn create_solana_client_rejects_a_malformed_endpoint() {
    let r = create_solana_client(&config("postgres://localhost/app", "127.0.0.1:8899"));
    assert_eq!(r, Err(InitError::ResourceInitFailed(Resource::RpcClient)));
}

#[test]
fn create_solana_client_needs_no_reachable_endpoint() {
    let r = create_solana_client(&config("postgres://localhost/app", "http://no.such.host.invalid:1"));
    assert!(r.is_ok());
}

#[test]
fn init_error_names_its_resource() {
    assert_eq!(
        InitError::ResourceInitFailed(Resource::RpcClient).resource(),
        Resource::RpcClient
    );
    assert_eq!(
        InitError::ResourceInitFailed(Resource::DatabasePool).resource(),
        Resource::DatabasePool
    );
}
