use isuconf::config::{
    default_as_false, default_as_true, CliConfig, LocalConfig, RemoteConfig, ServerConfig,
    DEFAULT_CONCURRENCY, DEFAULT_MAX_FILE_SIZE,
};
use isuconf::errors::SyncError;

fn config(concurrency: Option<usize>, max_file_size: Option<&str>) -> CliConfig {
    CliConfig {
        concurrency,
        max_file_size: max_file_size.map(|s| s.to_owned()),
        remote: RemoteConfig {
            servers: vec![],
            user: "isucon".to_owned(),
            identity: None,
            timeout: None,
        },
        local: LocalConfig { config_root_path: "config".to_owned() },
        targets: vec![],
    }
}

#[test]
fn a_server_goes_by_its_alias_when_it_has_one() {
    let s = ServerConfig { alias: Some("web1".to_owned()), host: "203.0.113.7".to_owned() };
    assert_eq!(s.name(), "web1".to_owned());
}

#[test]
fn a_server_without_alias_goes_by_its_host() {
    let s = ServerConfig { alias: None, host: "203.0.113.7".to_owned() };
    assert_eq!(s.name(), "203.0.113.7".to_owned());
}

#[test]
fn flag_defaults_are_fixed() {
    assert!(default_as_true());
    assert!(!default_as_false());
}

#[test]
fn max_file_size_defaults_to_300_kib() {
    assert_eq!(config(None, None).max_file_size().unwrap(), 300 * 1024);
    assert_eq!(DEFAULT_MAX_FILE_SIZE, 300 * 1024);
}

#[test]
fn max_file_size_reads_human_sizes() {
    assert_eq!(config(None, Some("10 KB")).max_file_size().unwrap(), 10_000);
    assert_eq!(config(None, Some("1 MiB")).max_file_size().unwrap(), 1 << 20);
    assert_eq!(config(None, Some("20000")).max_file_size().unwrap(), 20_000);
}

#[test]
fn an_unreadable_size_is_rejected_with_the_raw_text() {
    match config(None, Some("^_^")).max_file_size() {
        Err(SyncError::InvalidSize { raw }) => assert_eq!(raw, "^_^".to_owned()),
        other => panic!("expected InvalidSize, got {:?}", other),
    }
}

#[test]
fn a_size_with_twenty_or_more_digits_is_rejected() {
    // The engine never hands the parser a string long enough to make its
    // rounding overflow.
    for raw in ["184467440737095516155", "18446744073709551615.5", "18446744073709551615"] {
        match config(None, Some(raw)).max_file_size() {
            Err(SyncError::InvalidSize { raw: got }) => assert_eq!(got, raw.to_owned()),
            other => panic!("expected InvalidSize, got {:?}", other),
        }
    }
    // Nineteen digits still go through the parser.
    assert_eq!(
        config(None, Some("9999999999999999999")).max_file_size().unwrap(),
        9_999_999_999_999_999_999
    );
}

#[test]
fn concurrency_defaults_to_ten_and_never_drops_below_one() {
    assert_eq!(config(None, None).effective_concurrency(), DEFAULT_CONCURRENCY);
    assert_eq!(config(Some(2), None).effective_concurrency(), 2);
    assert_eq!(config(Some(0), None).effective_concurrency(), 1);
}
