use pocket_sync::api::{json_escape, link_list_request, request_code_request, request_token_request, LinkItemResponse, LinkListResponse};
use pocket_sync::auth::{apply_request_token, apply_validation, authorize_app, apply_request_code, code_is_valid, dispatch_to_sync};
use pocket_sync::document::{decode_config, encode_config};
use pocket_sync::config::{build_auth_url, config_wf, Config};
use pocket_sync::driver::{Action, Driver, Event, Phase};
use pocket_sync::store::{insert_statement, reconcile_report, store_db, sync_links, DbStorageReport};
use pocket_sync::SyncError;

fn base_config() -> Config {
    Config {
        consumer_key: String::from("key-1"),
        redirect_url: String::from("https://example.com/cb"),
        api_endpoint: String::from("https://getpocket.com/v3"),
        code: None,
        token: None,
        auth_url: None,
        code_valid: None,
    }
}

fn link(item_id: &str, title: Option<&str>, time_added: &str, url: &str) -> LinkItemResponse {
    LinkItemResponse {
        item_id: String::from(item_id),
        resolved_id: String::from(item_id),
        given_url: String::from(url),
        given_title: String::from("given"),
        favorite: String::from("0"),
        status: String::from("0"),
        time_added: String::from(time_added),
        time_updated: String::from(time_added),
        time_read: String::from("0"),
        time_favorited: String::from("0"),
        sort_id: 0,
        resolved_title: title.map(String::from),
        resolved_url: Some(String::from(url)),
        excerpt: None,
        is_article: None,
        is_index: None,
        has_video: None,
        has_image: None,
        word_count: None,
        lang: None,
        listen_duration_estimate: 0,
    }
}

#[test]
fn auth_url_built_from_code_and_redirect() {
    let url = build_auth_url(&String::from("abc123"), &String::from("https://example.com/cb"));
    assert_eq!(
        url,
        "https://getpocket.com/auth/authorize?request_token=abc123&redirect_uri=https://example.com/cb"
    );
}

#[test]
fn validate_session_without_auth_url_short_circuits() {
    let mut config = base_config();
    let target = code_is_valid(&mut config);
    assert!(target.is_none());
    assert_eq!(config.code_valid, Some(false));
}

#[test]
fn validate_session_with_auth_url_probes_it() {
    let mut config = base_config();
    config.auth_url = Some(String::from("https://getpocket.com/auth/authorize?request_token=x&redirect_uri=y"));
    let target = code_is_valid(&mut config);
    assert_eq!(
        target.as_deref(),
        Some("https://getpocket.com/auth/authorize?request_token=x&redirect_uri=y")
    );
    assert_eq!(config.code_valid, None);
}

#[test]
fn apply_validation_stores_probe_outcome() {
    let mut config = base_config();
    apply_validation(&mut config, Some(true));
    assert_eq!(config.code_valid, Some(true));
    apply_validation(&mut config, None);
    assert_eq!(config.code_valid, Some(true));
}

#[test]
fn json_escape_exact() {
    let escaped = json_escape("a\"b\\c\nd");
    assert_eq!(escaped, "a\\\"b\\\\c\\u000ad");
    assert_eq!(json_escape(""), "");
    assert_eq!(json_escape("plain"), "plain");
}

#[test]
fn request_code_payload_exact() {
    let config = base_config();
    let (url, payload) = request_code_request(&config);
    assert_eq!(url, "https://getpocket.com/v3/oauth/request");
    assert_eq!(
        payload,
        "{\"consumer_key\":\"key-1\",\"redirect_uri\":\"https://example.com/cb\"}"
    );
}

#[test]
fn request_token_payload_exact() {
    let mut config = base_config();
    config.code = Some(String::from("abc123"));
    let (url, payload) = request_token_request(&config);
    assert_eq!(url, "https://getpocket.com/v3/oauth/authorize");
    assert_eq!(payload, "{\"consumer_key\":\"key-1\",\"code\":\"abc123\"}");
}

#[test]
fn link_list_payload_exact() {
    let mut config = base_config();
    config.token = Some(String::from("tok-xyz"));
    let (url, payload) = link_list_request(&config);
    assert_eq!(url, "https://getpocket.com/v3/get");
    assert_eq!(payload, "{\"consumer_key\":\"key-1\",\"access_token\":\"tok-xyz\"}");
}

#[test]
fn insert_statement_quotes_untrusted_text() {
    let record = link("42", Some("it's a title"), "1700000000", "https://example.com/a");
    let statement = insert_statement(&record);
    assert_eq!(
        statement,
        "INSERT INTO links (resolved_title, item_id, time_added, url) VALUES ('it''s a title', '42', '1700000000', 'https://example.com/a');"
    );
}

#[test]
fn insert_statement_tolerates_missing_title() {
    let record = link("7", None, "1700000001", "https://example.com/b");
    let statement = insert_statement(&record);
    assert_eq!(
        statement,
        "INSERT INTO links (resolved_title, item_id, time_added, url) VALUES ('', '7', '1700000001', 'https://example.com/b');"
    );
}

#[test]
fn reconcile_report_counts_only_successes() {
    let outcomes = vec![true, false, true];
    let report = reconcile_report(3, &outcomes);
    assert_eq!(report.total, 3);
    assert_eq!(report.inserted, 2);
}

#[test]
fn default_report_is_empty() {
    let report = DbStorageReport::default();
    assert_eq!(report.total, 0);
    assert_eq!(report.inserted, 0);
    assert_eq!(report.time, 0);
}

#[test]
fn store_db_inserts_every_record() {
    let records = vec![
        link("1", Some("first"), "1700000000", "https://example.com/1"),
        link("2", None, "1700000001", "https://example.com/2"),
        link("3", Some("third"), "1700000002", "https://example.com/3"),
    ];
    let report = store_db(":memory:", &records).expect("in-memory store");
    assert_eq!(report.total, 3);
    assert_eq!(report.inserted, 3);
}

#[test]
fn sync_links_reports_batch() {
    let response = LinkListResponse {
        status: 1,
        list: vec![
            link("1", Some("first"), "1700000000", "https://example.com/1"),
            link("2", None, "1700000001", "https://example.com/2"),
            link("3", Some("third"), "1700000002", "https://example.com/3"),
        ],
    };
    let report = sync_links(":memory:", &response).expect("in-memory store");
    assert_eq!(report.total, 3);
    assert_eq!(report.inserted, 3);
}

#[test]
fn store_db_unreachable_path_is_persistence_error() {
    let records = vec![link("1", Some("first"), "1700000000", "https://example.com/1")];
    let result = store_db("/nonexistent-dir-for-sure/links.db", &records);
    assert!(matches!(result, Err(SyncError::Persistence)));
}

#[test]
fn config_text_round_trip() {
    let mut config = base_config();
    apply_request_code(&mut config, String::from("abc123"));
    let _ = authorize_app(&mut config);
    apply_request_token(&mut config, String::from("tok-xyz"));
    let written = encode_config(&config);
    let reloaded = decode_config(&written).expect("a written document loads");
    assert_eq!(reloaded.consumer_key, "key-1");
    assert_eq!(reloaded.redirect_url, "https://example.com/cb");
    assert_eq!(reloaded.api_endpoint, "https://getpocket.com/v3");
    assert_eq!(reloaded.code.as_deref(), Some("abc123"));
    assert_eq!(reloaded.token.as_deref(), Some("tok-xyz"));
    assert_eq!(reloaded.auth_url, config.auth_url);
    assert_eq!(reloaded.code_valid, None);
}

#[test]
fn encode_config_exact_text() {
    let config = base_config();
    let written = encode_config(&config);
    assert_eq!(
        written,
        "{\"consumer_key\":\"key-1\",\"redirect_url\":\"https://example.com/cb\",\"api_endpoint\":\"https://getpocket.com/v3\",\"code\":null,\"token\":null,\"auth_url\":null,\"code_valid\":null}"
    );
}

#[test]
fn text_round_trip_keeps_escaped_characters() {
    let mut config = base_config();
    config.consumer_key = String::from("a\"b\\c\nd");
    config.token = Some(String::from("tok\"quoted\""));
    let written = encode_config(&config);
    let reloaded = decode_config(&written).expect("a written document loads");
    assert_eq!(reloaded.consumer_key, "a\"b\\c\nd");
    assert_eq!(reloaded.token.as_deref(), Some("tok\"quoted\""));
}

#[test]
fn decode_config_rejects_misshapen_document() {
    assert!(decode_config("{}").is_none());
    assert!(decode_config("").is_none());
    assert!(decode_config("{\"consumer\":\"k\"}").is_none());
    let config = base_config();
    let written = encode_config(&config);
    let mut padded = written.clone();
    padded.push(' ');
    assert!(decode_config(&padded).is_none());
}

#[test]
fn decode_config_drops_stale_auth_url() {
    let mut config = base_config();
    config.code = Some(String::from("new-code"));
    config.auth_url = Some(String::from("https://getpocket.com/auth/authorize?request_token=old&redirect_uri=x"));
    let written = encode_config(&config);
    let reloaded = decode_config(&written).expect("the document loads");
    assert_eq!(reloaded.code.as_deref(), Some("new-code"));
    assert_eq!(reloaded.auth_url, None);
}

#[test]
fn config_wf_checks_auth_url_against_code() {
    let mut config = base_config();
    assert!(config_wf(&config));
    config.code = Some(String::from("abc123"));
    assert!(config_wf(&config));
    config.auth_url = Some(build_auth_url(
        &String::from("abc123"),
        &String::from("https://example.com/cb"),
    ));
    assert!(config_wf(&config));
    config.auth_url = Some(String::from("https://elsewhere.example/auth"));
    assert!(!config_wf(&config));
}

#[test]
fn dispatch_needs_code_and_validation() {
    let mut config = base_config();
    assert!(!dispatch_to_sync(&config));
    config.code = Some(String::from("abc123"));
    assert!(!dispatch_to_sync(&config));
    config.code_valid = Some(false);
    assert!(!dispatch_to_sync(&config));
    config.code_valid = Some(true);
    assert!(dispatch_to_sync(&config));
}

#[test]
fn driver_full_refresh_run() {
    // A document with no code and no token drives the full refresh sequence.
    let config = base_config();
    let mut driver = Driver::new(config);
    assert!(matches!(driver.phase, Phase::Validate));

    let action = driver.step(Event::Started);
    match action {
        Action::SendCodeRequest(url, payload) => {
            assert_eq!(url, "https://getpocket.com/v3/oauth/request");
            assert_eq!(
                payload,
                "{\"consumer_key\":\"key-1\",\"redirect_uri\":\"https://example.com/cb\"}"
            );
        }
        _ => panic!("expected the code request"),
    }
    assert!(matches!(driver.phase, Phase::AwaitCode));

    let action = driver.step(Event::CodeReceived(Ok(String::from("abc123"))));
    match action {
        Action::PresentUrl(url) => {
            assert_eq!(
                url,
                "https://getpocket.com/auth/authorize?request_token=abc123&redirect_uri=https://example.com/cb"
            );
        }
        _ => panic!("expected the authorization URL"),
    }

    let action = driver.step(Event::UserConfirmed);
    match action {
        Action::SendTokenRequest(url, payload) => {
            assert_eq!(url, "https://getpocket.com/v3/oauth/authorize");
            assert_eq!(payload, "{\"consumer_key\":\"key-1\",\"code\":\"abc123\"}");
        }
        _ => panic!("expected the token request"),
    }

    let action = driver.step(Event::TokenReceived(Ok(String::from("tok-xyz"))));
    assert!(matches!(action, Action::PersistConfig));
    assert!(matches!(driver.phase, Phase::AwaitPersist));

    // The document that is persisted now: new code and token, no cached validity.
    assert_eq!(driver.config.code.as_deref(), Some("abc123"));
    assert_eq!(driver.config.token.as_deref(), Some("tok-xyz"));
    assert_eq!(driver.config.code_valid, None);

    let action = driver.step(Event::Persisted(true));
    assert!(matches!(action, Action::Stop));
    assert!(matches!(driver.phase, Phase::Done));
}

#[test]
fn driver_validated_session_syncs_and_never_requests_code() {
    let mut config = base_config();
    config.code = Some(String::from("abc123"));
    config.token = Some(String::from("tok-xyz"));
    config.auth_url = Some(build_auth_url(
        &String::from("abc123"),
        &String::from("https://example.com/cb"),
    ));
    let mut driver = Driver::new(config);

    let action = driver.step(Event::Started);
    match action {
        Action::CheckAuthUrl(url) => {
            assert_eq!(
                url,
                "https://getpocket.com/auth/authorize?request_token=abc123&redirect_uri=https://example.com/cb"
            );
        }
        _ => panic!("expected the validation probe"),
    }

    let action = driver.step(Event::ValidationChecked(Ok(true)));
    match action {
        Action::FetchLinks(url, payload) => {
            assert_eq!(url, "https://getpocket.com/v3/get");
            assert_eq!(payload, "{\"consumer_key\":\"key-1\",\"access_token\":\"tok-xyz\"}");
        }
        _ => panic!("expected the link fetch"),
    }

    // The fetched batch of three records, one missing its resolved title,
    // reconciles in full.
    let records = vec![
        link("1", Some("first"), "1700000000", "https://example.com/1"),
        link("2", None, "1700000001", "https://example.com/2"),
        link("3", Some("third"), "1700000002", "https://example.com/3"),
    ];
    let report = store_db(":memory:", &records).expect("in-memory store");
    assert_eq!(report.total, 3);
    assert_eq!(report.inserted, 3);

    let action = driver.step(Event::LinksSynced(true));
    assert!(matches!(action, Action::Stop));
    assert!(matches!(driver.phase, Phase::Done));
}

#[test]
fn driver_invalid_session_requests_code() {
    let mut config = base_config();
    config.code = Some(String::from("abc123"));
    config.token = Some(String::from("tok-xyz"));
    config.auth_url = Some(build_auth_url(
        &String::from("abc123"),
        &String::from("https://example.com/cb"),
    ));
    let mut driver = Driver::new(config);

    let _ = driver.step(Event::Started);
    let action = driver.step(Event::ValidationChecked(Ok(false)));
    assert!(matches!(action, Action::SendCodeRequest(_, _)));
    assert!(matches!(driver.phase, Phase::AwaitCode));
}

#[test]
fn driver_failed_token_exchange_never_persists() {
    let config = base_config();
    let mut driver = Driver::new(config);
    let _ = driver.step(Event::Started);
    let _ = driver.step(Event::CodeReceived(Ok(String::from("abc123"))));
    let _ = driver.step(Event::UserConfirmed);
    let action = driver.step(Event::TokenReceived(Err(SyncError::Decode)));
    assert!(matches!(action, Action::Stop));
    assert!(matches!(driver.phase, Phase::Failed));
    assert_eq!(driver.config.token, None);
}

#[test]
fn driver_validation_transport_failure_aborts() {
    let mut config = base_config();
    config.auth_url = Some(String::from("https://getpocket.com/auth/authorize?request_token=x&redirect_uri=y"));
    let mut driver = Driver::new(config);
    let _ = driver.step(Event::Started);
    let action = driver.step(Event::ValidationChecked(Err(SyncError::Transport)));
    assert!(matches!(action, Action::Stop));
    assert!(matches!(driver.phase, Phase::Failed));
}
