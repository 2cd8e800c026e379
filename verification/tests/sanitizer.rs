use mightybadger::config::RequestConfig;
use mightybadger::payload::RequestInfo;

#[test]
fn authorization_value_is_redacted() {
    let mut info = RequestInfo::empty();
    info.cgi_data = vec![
        ("HTTP_AUTHORIZATION".to_string(), "secret".to_string()),
        ("HTTP_HOST".to_string(), "example.com".to_string()),
    ];
    info.sanitize(&RequestConfig::default());
    assert_eq!(info.cgi_data[0].0, "HTTP_AUTHORIZATION");
    assert_eq!(info.cgi_data[0].1, "[FILTERED]");
    assert_eq!(info.cgi_data[1].0, "HTTP_HOST");
    assert_eq!(info.cgi_data[1].1, "example.com");
}

#[test]
fn all_four_maps_are_sanitized() {
    let secret = ("password_field".to_string(), "hunter2".to_string());
    let plain = ("name".to_string(), "x".to_string());
    let mut info = RequestInfo::empty();
    info.cgi_data = vec![secret.clone()];
    info.params = vec![secret.clone()];
    info.session = vec![secret.clone()];
    info.context = vec![secret.clone()];
    info.local_variables = vec![secret.clone(), plain.clone()];
    info.sanitize(&RequestConfig::default());
    assert_eq!(info.cgi_data[0].1, "[FILTERED]");
    assert_eq!(info.params[0].1, "[FILTERED]");
    assert_eq!(info.session[0].1, "[FILTERED]");
    assert_eq!(info.context[0].1, "[FILTERED]");
    // local variables are carried through untouched
    assert_eq!(info.local_variables[0].1, "hunter2");
    assert_eq!(info.local_variables[1].1, "x");
}

#[test]
fn configured_filter_keys_replace_defaults() {
    let rc = RequestConfig { filter_keys: Some(vec!["token".to_string()]) };
    let mut info = RequestInfo::empty();
    info.params = vec![
        ("auth_token".to_string(), "t".to_string()),
        ("password".to_string(), "p".to_string()),
    ];
    info.sanitize(&rc);
    assert_eq!(info.params[0].1, "[FILTERED]");
    // "password" is not in the configured list, so it stays
    assert_eq!(info.params[1].1, "p");
}

#[test]
fn equal_keys_are_each_redacted() {
    let mut info = RequestInfo::empty();
    info.params = vec![
        ("password".to_string(), "a".to_string()),
        ("password".to_string(), "b".to_string()),
    ];
    info.sanitize(&RequestConfig::default());
    assert_eq!(info.params.len(), 2);
    assert_eq!(info.params[0].1, "[FILTERED]");
    assert_eq!(info.params[1].1, "[FILTERED]");
}
