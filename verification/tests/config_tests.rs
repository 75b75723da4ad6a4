use search_sync::config::{parse_port, Config, EnvValues};

fn full_env() -> EnvValues {
    EnvValues {
        api_key: Some("secret".to_string()),
        sentry_sdn: Some("https://sentry.example/1".to_string()),
        postgres_db_name: Some("catalog".to_string()),
        postgres_host: Some("db.example".to_string()),
        postgres_port: Some("5432".to_string()),
        postgres_user: Some("reader".to_string()),
        postgres_password: Some("hunter2".to_string()),
        meili_host: Some("http://meili.example:7700".to_string()),
        meili_master_key: Some("masterkey".to_string()),
    }
}

#[test]
fn load_accepts_complete_environment() {
    let config = Config::load(full_env()).unwrap();
    assert_eq!(config.api_key, "secret");
    assert_eq!(config.sentry_sdn, "https://sentry.example/1");
    assert_eq!(config.postgres_db_name, "catalog");
    assert_eq!(config.postgres_host, "db.example");
    assert_eq!(config.postgres_port, 5432u16);
    assert_eq!(config.postgres_user, "reader");
    assert_eq!(config.postgres_password, "hunter2");
    assert_eq!(config.meili_host, "http://meili.example:7700");
    assert_eq!(config.meili_master_key, "masterkey");
}

#[test]
fn load_rejects_missing_variable() {
    let mut env = full_env();
    env.postgres_password = None;
    assert!(Config::load(env).is_none());
    let mut env = full_env();
    env.api_key = None;
    assert!(Config::load(env).is_none());
}

#[test]
fn load_rejects_malformed_port() {
    let mut env = full_env();
    env.postgres_port = Some("54x2".to_string());
    assert!(Config::load(env).is_none());
    let mut env = full_env();
    env.postgres_port = Some("".to_string());
    assert!(Config::load(env).is_none());
}

#[test]
fn parse_port_reads_decimal_values() {
    assert_eq!(parse_port("8080"), Some(8080u16));
    assert_eq!(parse_port("0"), Some(0u16));
    assert_eq!(parse_port("65535"), Some(65535u16));
    assert_eq!(parse_port("007"), Some(7u16));
}

#[test]
fn parse_port_rejects_bad_input() {
    assert_eq!(parse_port(""), None);
    assert_eq!(parse_port("65536"), None);
    assert_eq!(parse_port("99999999999999999999"), None);
    assert_eq!(parse_port("12a"), None);
    assert_eq!(parse_port("-1"), None);
    assert_eq!(parse_port(" 5432"), None);
}
