use mightybadger::config::Config;
use mightybadger::config::ConfigStore;
use mightybadger::config::EnvSettings;
use mightybadger::config::RequestConfig;
use mightybadger::config::apply_env_settings;
use mightybadger::config::configure_from_env;

#[test]
fn test_read_config() {
    let store = ConfigStore::new();
    let config = store.read_config();
    assert_eq!(config.config().env, None);
}

#[test]
fn test_configure() {
    let mut store = ConfigStore::new();
    let mut draft = store.begin_configure();
    assert_eq!(draft.env, None);
    draft.env = Some("foo".to_string());
    store.commit(draft);
    let draft2 = store.begin_configure();
    assert_eq!(draft2.env, Some("foo".to_string()));
    let config = store.read_config();
    assert_eq!(config.config().env, Some("foo".to_string()));
}

#[test]
fn test_configure_panic_recovery() {
    // An abandoned update never reaches the committed configuration: the
    // draft is mutated but rolled back, as the store does when the
    // caller's mutator panics partway through.
    let mut store = ConfigStore::new();
    let mut draft = store.begin_configure();
    draft.env = Some("foo".to_string());
    drop(draft);
    store.rollback();
    let config = store.read_config();
    assert_eq!(config.config().env, None);
    let draft2 = store.begin_configure();
    assert_eq!(draft2.env, None);
}

#[test]
fn test_read_config_in_configure() {
    // A snapshot taken before an update, and one taken while a draft is
    // being prepared, both show the committed configuration.
    let mut store = ConfigStore::new();
    let config2 = store.read_config();
    let mut draft = store.begin_configure();
    draft.env = Some("foo".to_string());
    let config3 = store.read_config();
    assert_eq!(config2.config().env, None);
    assert_eq!(config3.config().env, None);
    store.commit(draft);
}

#[test]
fn replace_config_returns_previous() {
    let mut store = ConfigStore::new();
    let mut draft = store.begin_configure();
    draft.api_key = Some("k1".to_string());
    store.commit(draft);
    let mut next = Config::default();
    next.api_key = Some("k2".to_string());
    let old = store.replace_config(next);
    assert_eq!(old.api_key, Some("k1".to_string()));
    assert_eq!(
        store.read_config().config().api_key,
        Some("k2".to_string())
    );
}

#[test]
fn filter_key_uses_defaults_when_unset() {
    let rc = RequestConfig::default();
    assert!(rc.filter_key("HTTP_AUTHORIZATION"));
    assert!(rc.filter_key("some_password_field"));
    assert!(!rc.filter_key("HOST"));
}

#[test]
fn filter_key_uses_configured_substrings() {
    let rc = RequestConfig {
        filter_keys: Some(vec!["token".to_string(), "secret".to_string()]),
    };
    assert!(rc.filter_key("csrf_token"));
    assert!(rc.filter_key("secret"));
    assert!(!rc.filter_key("password"));
}

#[test]
fn env_settings_fill_only_unset_fields() {
    let mut config = Config::default();
    config.env = Some("production".to_string());
    let settings = EnvSettings {
        api_key: Some("abc".to_string()),
        env: Some("staging".to_string()),
        report_data: Some("TRUE".to_string()),
        root: None,
        revision: None,
        hostname: None,
        connection_secure: Some("0".to_string()),
        connection_host: None,
        connection_port: Some("8080".to_string()),
        filter_keys: Some("a, b ,c".to_string()),
    };
    apply_env_settings(&mut config, settings);
    assert_eq!(config.api_key, Some("abc".to_string()));
    assert_eq!(config.env, Some("production".to_string()));
    assert_eq!(config.report_data, Some(true));
    assert_eq!(config.connection.secure, Some(false));
    assert_eq!(config.connection.port, Some(8080));
    assert_eq!(
        config.request.filter_keys,
        Some(vec!["a".to_string(), "b".to_string(), "c".to_string()])
    );
}

#[test]
fn env_bool_values() {
    for raw in ["true", "TRUE", "t", "T", "1"] {
        let mut config = Config::default();
        let mut settings = EnvSettings::default();
        settings.report_data = Some(raw.to_string());
        apply_env_settings(&mut config, settings);
        assert_eq!(config.report_data, Some(true), "{}", raw);
    }
    for raw in ["false", "0", "yes", ""] {
        let mut config = Config::default();
        let mut settings = EnvSettings::default();
        settings.report_data = Some(raw.to_string());
        apply_env_settings(&mut config, settings);
        assert_eq!(config.report_data, Some(false), "{}", raw);
    }
}

#[test]
fn env_port_must_parse() {
    let mut config = Config::default();
    let mut settings = EnvSettings::default();
    settings.connection_port = Some("not a port".to_string());
    apply_env_settings(&mut config, settings);
    assert_eq!(config.connection.port, None);

    let mut config = Config::default();
    let mut settings = EnvSettings::default();
    settings.connection_port = Some("70000".to_string());
    apply_env_settings(&mut config, settings);
    assert_eq!(config.connection.port, None);
}

#[test]
fn configure_from_env_publishes() {
    let mut store = ConfigStore::new();
    let mut settings = EnvSettings::default();
    settings.api_key = Some("abc".to_string());
    configure_from_env(&mut store, settings);
    assert_eq!(
        store.read_config().config().api_key,
        Some("abc".to_string())
    );
}
