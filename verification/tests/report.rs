use mightybadger::classify_status;
use mightybadger::config::Config;
use mightybadger::config::ConnectionConfig;
use mightybadger::endpoint_url;
use mightybadger::error_class;
use mightybadger::generate_server_info;
use mightybadger::interpret_outcome;
use mightybadger::interpret_response;
use mightybadger::notify_internal;
use mightybadger::payload::RequestInfo;
use mightybadger::payload::ServerInfo;
use mightybadger::payload::Stats;
use mightybadger::random_uuid;
use mightybadger::should_report;
use mightybadger::uuid_string_from_bytes;
use mightybadger::BuiltinErrorKind;
use mightybadger::ErrorKind;
use mightybadger::ErrorReport;
use mightybadger::HoneybadgerError;
use mightybadger::TransportOutcome;

fn stats() -> Stats {
    Stats { mem: None, load: None }
}

fn server_info() -> ServerInfo {
    ServerInfo {
        project_root: None,
        revision: None,
        environment_name: None,
        hostname: None,
        stats: stats(),
        time: "2020-01-01 00:00:00 UTC".to_string(),
        pid: 1,
    }
}

fn panic_report(message: &str, trace: &str) -> ErrorReport {
    ErrorReport {
        kind: ErrorKind::Panic,
        message: message.to_string(),
        trace: Some(trace.to_string()),
        causes: vec![],
    }
}

#[test]
fn status_429_is_too_many_requests() {
    assert_eq!(
        classify_status(429, None),
        Err(HoneybadgerError::TooManyRequests)
    );
    assert_eq!(
        classify_status(503, None),
        Err(HoneybadgerError::TooManyRequests)
    );
}

#[test]
fn status_billing_and_auth_rejections() {
    assert_eq!(
        classify_status(402, None),
        Err(HoneybadgerError::PaymentRequired)
    );
    assert_eq!(classify_status(403, None), Err(HoneybadgerError::Forbidden));
    assert_eq!(
        classify_status(500, None),
        Err(HoneybadgerError::UnknownResponse)
    );
}

#[test]
fn status_201_needs_an_id() {
    assert_eq!(
        classify_status(201, Some("abc".to_string())),
        Ok("abc".to_string())
    );
    assert_eq!(
        classify_status(201, None),
        Err(HoneybadgerError::ResponseDecodeFailed)
    );
}

#[test]
fn response_201_with_uuid_body_succeeds() {
    let body = "{\"id\": \"f47ac10b-58cc-4372-a567-0e02b2c3d479\"}";
    assert_eq!(
        interpret_response(201, body),
        Ok("f47ac10b-58cc-4372-a567-0e02b2c3d479".to_string())
    );
}

#[test]
fn response_201_with_bad_body_fails_to_decode() {
    assert_eq!(
        interpret_response(201, "not json"),
        Err(HoneybadgerError::ResponseDecodeFailed)
    );
    assert_eq!(
        interpret_response(201, "{\"id\": \"not a uuid\"}"),
        Err(HoneybadgerError::ResponseDecodeFailed)
    );
    assert_eq!(
        interpret_response(201, "{\"other\": 3}"),
        Err(HoneybadgerError::ResponseDecodeFailed)
    );
}

#[test]
fn response_429_surfaces_as_too_many_requests() {
    assert_eq!(
        interpret_response(429, ""),
        Err(HoneybadgerError::TooManyRequests)
    );
}

#[test]
fn outcome_mapping() {
    assert_eq!(
        interpret_outcome(TransportOutcome::SerializeFailed("bad".to_string())),
        Err(HoneybadgerError::CouldNotAssemblePayload("bad".to_string()))
    );
    assert_eq!(
        interpret_outcome(TransportOutcome::RequestFailed("refused".to_string())),
        Err(HoneybadgerError::HttpRequestFailed("refused".to_string()))
    );
    assert_eq!(
        interpret_outcome(TransportOutcome::Responded(429, String::new())),
        Err(HoneybadgerError::TooManyRequests)
    );
}

#[test]
fn error_class_table() {
    assert_eq!(
        error_class(&ErrorKind::Builtin(BuiltinErrorKind::ParseIntError)),
        "std::num::ParseIntError"
    );
    assert_eq!(
        error_class(&ErrorKind::BuiltinContext(BuiltinErrorKind::IoError)),
        "failure::Context<std::io::Error>"
    );
    assert_eq!(
        error_class(&ErrorKind::Named("my::Error".to_string())),
        "my::Error"
    );
    assert_eq!(error_class(&ErrorKind::Panic), "mightybadger::Panic");
    assert_eq!(error_class(&ErrorKind::Opaque), "Fail");
}

#[test]
fn uuid_formatting_sets_version_and_variant() {
    let bytes: Vec<u8> = vec![
        0x00, 0x11, 0x22, 0x33, 0x44, 0x55, 0x66, 0x77, 0x88, 0x99, 0xaa, 0xbb, 0xcc, 0xdd,
        0xee, 0xff,
    ];
    let text = uuid_string_from_bytes(&bytes);
    assert_eq!(text, "00112233-4455-4677-8899-aabbccddeeff");
}

#[test]
fn random_uuid_is_well_formed() {
    let id = random_uuid().unwrap();
    assert_eq!(id.len(), 36);
    let chars: Vec<char> = id.chars().collect();
    assert_eq!(chars[8], '-');
    assert_eq!(chars[13], '-');
    assert_eq!(chars[18], '-');
    assert_eq!(chars[23], '-');
    assert_eq!(chars[14], '4');
    assert!(matches!(chars[19], '8' | '9' | 'a' | 'b'));
}

#[test]
fn endpoint_url_defaults() {
    let c = ConnectionConfig::default();
    assert_eq!(endpoint_url(&c), "https://api.honeybadger.io:443/v1/notices");
}

#[test]
fn endpoint_url_configured() {
    let c = ConnectionConfig {
        secure: Some(false),
        host: Some("127.0.0.1".to_string()),
        port: Some(8080),
    };
    assert_eq!(endpoint_url(&c), "http://127.0.0.1:8080/v1/notices");
}

#[test]
fn gate_excluded_environments() {
    let mut config = Config::default();
    assert!(should_report(&config));
    config.env = Some("test".to_string());
    assert!(!should_report(&config));
    config.env = Some("development".to_string());
    assert!(!should_report(&config));
    config.env = Some("cucumber".to_string());
    assert!(!should_report(&config));
    config.env = Some("production".to_string());
    assert!(should_report(&config));
    config.report_data = Some(true);
    config.env = Some("test".to_string());
    assert!(should_report(&config));
}

#[test]
fn report_data_false_suppresses_reporting() {
    let mut config = Config::default();
    config.api_key = Some("abcdef".to_string());
    config.report_data = Some(false);
    let report = panic_report("boom", "app::main\n");
    let r = notify_internal(&config, &report, None, &vec![], None, server_info());
    assert_eq!(r.unwrap_err(), HoneybadgerError::NoReportData);
}

#[test]
fn missing_api_key_is_reported() {
    let config = Config::default();
    let report = panic_report("boom", "app::main\n");
    let r = notify_internal(&config, &report, None, &vec![], None, server_info());
    assert_eq!(r.unwrap_err(), HoneybadgerError::NoApiKey);
}

#[test]
fn panic_payload_carries_message_and_trimmed_backtrace() {
    let mut config = Config::default();
    config.api_key = Some("abcdef".to_string());
    let trace = "std::panicking::begin_panic::h0\n\
                 at panicking.rs:10\n\
                 core::panicking::panic::h1\n\
                 at panicking.rs:20\n\
                 app::main\n\
                 at src/main.rs:3\n";
    let report = panic_report("boom", trace);
    let token = Some("00112233-4455-4677-8899-aabbccddeeff".to_string());
    let payload = notify_internal(&config, &report, token, &vec![], None, server_info()).unwrap();
    assert_eq!(payload.api_key, "abcdef");
    assert_eq!(payload.error.message, "boom");
    assert_eq!(payload.error.class, "mightybadger::Panic");
    assert_eq!(
        payload.error.token.as_deref(),
        Some("00112233-4455-4677-8899-aabbccddeeff")
    );
    let bt = payload.error.backtrace.as_ref().unwrap();
    assert!(!bt.is_empty());
    for entry in bt.iter() {
        assert!(!entry.method.starts_with("std::panicking::begin_panic::"));
        assert!(!entry.method.starts_with("core::panicking::panic::"));
    }
    assert_eq!(bt[0].method, "app::main");
    let notifier = payload.notifier.as_ref().unwrap();
    assert_eq!(notifier.name, "mightybadger-rust");
    assert_eq!(notifier.language, "rust");
}

#[test]
fn payload_request_metadata_is_sanitized() {
    let mut config = Config::default();
    config.api_key = Some("abcdef".to_string());
    let mut request = RequestInfo::empty();
    request.cgi_data = vec![
        ("HTTP_AUTHORIZATION".to_string(), "secret".to_string()),
    ];
    let report = panic_report("boom", "app::main\n");
    let payload =
        notify_internal(&config, &report, None, &vec![], Some(request), server_info()).unwrap();
    let req = payload.request.as_ref().unwrap();
    assert_eq!(req.cgi_data[0].1, "[FILTERED]");
}

#[test]
fn causes_carry_their_own_backtraces() {
    let mut config = Config::default();
    config.api_key = Some("abcdef".to_string());
    let report = ErrorReport {
        kind: ErrorKind::Named("outer::Error".to_string()),
        message: "outer".to_string(),
        trace: Some("app::outer\n".to_string()),
        causes: vec![
            mightybadger::CauseReport {
                kind: ErrorKind::Builtin(BuiltinErrorKind::IoError),
                message: "io failed".to_string(),
                trace: Some("app::inner\nat src/inner.rs:4\n".to_string()),
            },
            mightybadger::CauseReport {
                kind: ErrorKind::Opaque,
                message: "root".to_string(),
                trace: None,
            },
        ],
    };
    let payload = notify_internal(&config, &report, None, &vec![], None, server_info()).unwrap();
    assert_eq!(payload.error.causes.len(), 2);
    assert_eq!(payload.error.causes[0].class, "std::io::Error");
    assert_eq!(payload.error.causes[0].message, "io failed");
    let cause_bt = payload.error.causes[0].backtrace.as_ref().unwrap();
    assert_eq!(cause_bt[0].method, "app::inner");
    assert_eq!(cause_bt[0].file.as_deref(), Some("src/inner.rs"));
    assert_eq!(payload.error.causes[1].class, "Fail");
    assert!(payload.error.causes[1].backtrace.is_none());
}

#[test]
fn server_info_copies_configuration() {
    let mut config = Config::default();
    config.root = Some("/srv/app".to_string());
    config.env = Some("production".to_string());
    config.hostname = Some("box1".to_string());
    config.revision = Some("deadbeef".to_string());
    let s = generate_server_info(&config, stats(), 4242);
    assert_eq!(s.project_root.as_deref(), Some("/srv/app"));
    assert_eq!(s.environment_name.as_deref(), Some("production"));
    assert_eq!(s.hostname.as_deref(), Some("box1"));
    assert_eq!(s.revision.as_deref(), Some("deadbeef"));
    assert_eq!(s.pid, 4242);
}
