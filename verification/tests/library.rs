use spus::db::url::Url;
use spus::db::{check_connection, DatabaseError, POOL_MAX_SIZE};
use spus::routes::{check_url_param, db_health_reply, redirect_target, reject_reply, shorten_reply, UrlParamError};
use spus::service::long_url::{long_url, url_hash};
use spus::service::short_url::{
    build_short_url, check_short_id, short_url_at, next_id_attempt, on_id_lookup, short_url, IdAttempt, IdOutcome, MAX_ID_RETRIES,
    SECONDS_PER_DAY, SHORT_ID_LEN,
};
use spus::utils::common_utils::{check_envs, required_envs};
use spus::utils::config::AppStateError;
use spus::utils::response::{
    generate_failure_response, generate_failure_response_at, generate_success_response,
    generate_success_response_at, ApplicationResponse, STATUS_NOT_ACCEPTABLE,
};
use serde_json::Value;

fn row(short: &str, original: &str, hash: i64) -> Url {
    Url {
        id: 7,
        original_url: original.to_string(),
        short_url: short.to_string(),
        created_on: 100,
        expiries_at: 100 + 86_400,
        redirection_count: 2,
        hash,
    }
}

fn obj(key: &str, value: Value) -> Value {
    let mut members = serde_json::Map::new();
    members.insert(key.to_string(), value);
    Value::Object(members)
}

fn is_safe(c: char) -> bool {
    c == '_' || c == '-' || c.is_ascii_alphanumeric()
}

#[test]
fn database_error_messages() {
    assert_eq!(DatabaseError::DatabaseEnvVarError.message(), "DATABASE_URL env not found");
    assert_eq!(DatabaseError::PoolConnectionError.message(), "Cannot create pool");
    assert_eq!(POOL_MAX_SIZE, 10);
    check_connection();
}

#[test]
fn app_state_error_wraps_database_error() {
    let e: AppStateError = AppStateError::from(DatabaseError::PoolConnectionError);
    assert_eq!(e, AppStateError::DatabasePoolError(DatabaseError::PoolConnectionError));
    assert_eq!(e.message(), "Cannot get database pools.");
    assert_eq!(e.source(), DatabaseError::PoolConnectionError);
}

#[test]
fn required_envs_in_order() {
    assert_eq!(required_envs(), vec!["SERVER_HOST", "SERVER_PORT", "DATABASE_URL"]);
}

#[test]
fn check_envs_all_set() {
    assert_eq!(check_envs([true, true, true]), Ok(()));
}

#[test]
fn check_envs_reports_missing_like_debug() {
    let err = check_envs([false, true, false]).unwrap_err();
    assert_eq!(err, "[\"SERVER_HOST\", \"DATABASE_URL\"] are missing env variables.");
    let names = vec!["SERVER_HOST", "DATABASE_URL"];
    let refs: Vec<&&str> = names.iter().collect();
    assert_eq!(err, format!("{:?} are missing env variables.", refs));
}

#[test]
fn check_envs_single_and_all_missing() {
    assert_eq!(
        check_envs([true, false, true]).unwrap_err(),
        "[\"SERVER_PORT\"] are missing env variables."
    );
    assert_eq!(
        check_envs([false, false, false]).unwrap_err(),
        "[\"SERVER_HOST\", \"SERVER_PORT\", \"DATABASE_URL\"] are missing env variables."
    );
}

#[test]
fn url_hash_is_murmur3_of_bytes() {
    assert_eq!(url_hash(""), 36_859_204);
    assert_eq!(url_hash("a"), 3_144_985_375);
    assert_eq!(url_hash("abc"), 476_091_040);
    assert_eq!(url_hash("abcdefghijklmnop"), 2_078_305_053);
}

#[test]
fn first_attempt_draws_short_safe_id() {
    match next_id_attempt(None) {
        IdAttempt::Check { id, retry } => {
            assert_eq!(retry, 0);
            assert_eq!(id.chars().count(), SHORT_ID_LEN);
            assert_eq!(id.len(), 6);
            assert!(id.chars().all(is_safe));
        }
        IdAttempt::GiveUp => panic!("gave up on the first attempt"),
    }
}

#[test]
fn attempt_gives_up_at_limit() {
    assert!(matches!(next_id_attempt(Some(MAX_ID_RETRIES)), IdAttempt::GiveUp));
    assert!(matches!(next_id_attempt(Some(9)), IdAttempt::Check { retry: 9, .. }));
}

#[test]
fn lookup_outcomes() {
    assert!(matches!(on_id_lookup("abc123".to_string(), 3, true), IdOutcome::Retry(Some(4))));
    match on_id_lookup("abc123".to_string(), 3, false) {
        IdOutcome::Accept(id) => assert_eq!(id, "abc123"),
        IdOutcome::Retry(_) => panic!("free id was not accepted"),
    }
}

#[test]
fn search_makes_ten_lookups_when_every_candidate_is_taken() {
    let mut retry: Option<u8> = None;
    let mut lookups = 0;
    loop {
        match next_id_attempt(retry) {
            IdAttempt::GiveUp => break,
            IdAttempt::Check { id, retry: r } => {
                lookups += 1;
                match on_id_lookup(id, r, true) {
                    IdOutcome::Retry(next) => retry = next,
                    IdOutcome::Accept(_) => panic!("taken id accepted"),
                }
            }
        }
    }
    assert_eq!(lookups, 10);
    assert_eq!(retry, Some(10));
}

#[test]
fn build_short_url_fields() {
    let r = build_short_url("https://example.com/a".to_string(), "abcdef".to_string(), 1_431_648_000);
    assert_eq!(r.id, 0);
    assert_eq!(r.original_url, "https://example.com/a");
    assert_eq!(r.short_url, "abcdef");
    assert_eq!(r.created_on, 1_431_648_000);
    assert_eq!(r.expiries_at, 1_431_648_000 + 86_400);
    assert_eq!(r.redirection_count, 0);
    assert_eq!(r.hash, url_hash("abcdef"));
    assert_eq!(SECONDS_PER_DAY, 86_400);
}

#[test]
fn short_url_stamps_current_time() {
    let before = std::time::SystemTime::now().duration_since(std::time::UNIX_EPOCH).unwrap().as_secs() as i64;
    let r = short_url("https://example.com".to_string(), "Xy_-9z".to_string()).unwrap();
    let after = std::time::SystemTime::now().duration_since(std::time::UNIX_EPOCH).unwrap().as_secs() as i64;
    assert!(before <= r.created_on && r.created_on <= after);
    assert_eq!(r.expiries_at, r.created_on + 86_400);
    assert_eq!(r.hash, url_hash("Xy_-9z"));
    assert_eq!(r.short_url, "Xy_-9z");
}

#[test]
fn long_url_resolves_only_exact_match() {
    let found = long_url("abc".to_string(), Some(row("abc", "https://x.org", 1)));
    assert_eq!(found.map(|u| u.original_url), Some("https://x.org".to_string()));
    assert!(long_url("abd".to_string(), Some(row("abc", "https://x.org", 1))).is_none());
    assert!(long_url("abc".to_string(), None).is_none());
}

#[test]
fn shorten_then_resolve_round_trip() {
    let r = build_short_url("https://example.com/page".to_string(), "q1W2e3".to_string(), 5);
    assert_eq!(r.hash, url_hash("q1W2e3"));
    let back = long_url("q1W2e3".to_string(), Some(r.clone())).unwrap();
    assert_eq!(back.short_url, "q1W2e3");
    assert_eq!(redirect_target(Some(back)), "https://example.com/page");
}

#[test]
fn first_row_of_rows() {
    assert!(Url::first_row(vec![]).is_none());
    let first = Url::first_row(vec![row("a", "https://a", 1), row("b", "https://b", 2)]).unwrap();
    assert_eq!(first.short_url, "a");
}

#[test]
fn url_param_checks() {
    assert!(matches!(check_url_param(None), Err(UrlParamError::Missing)));
    assert_eq!(check_url_param(Some("https://example.com".to_string())).ok(), Some("https://example.com".to_string()));
    match check_url_param(Some("not a url".to_string())) {
        Err(e) => {
            assert_eq!(e.message(), "'not a url' does not look like url.");
            assert_eq!(e.status_code(), STATUS_NOT_ACCEPTABLE);
        }
        Ok(_) => panic!("accepted a non-url"),
    }
    assert_eq!(UrlParamError::Missing.message(), "url param not provided.");
}

#[test]
fn redirect_defaults_to_root() {
    assert_eq!(redirect_target(None), "/");
    assert_eq!(redirect_target(Some(row("a", "https://a.b/c", 1))), "https://a.b/c");
}

#[test]
fn success_response_defaults() {
    let (code, body) = generate_success_response(Value::Bool(true), "/short".to_string(), None, None);
    assert_eq!(code, 200);
    assert_eq!(body.status_code, 200);
    assert!(!body.is_error);
    assert_eq!(body.url, "/short");
    assert_eq!(body.data, Value::Bool(true));
}

#[test]
fn success_response_given_status_and_time() {
    let t = chrono::DateTime::from_timestamp(1_431_648_000, 0).unwrap().naive_utc();
    let (code, body) = generate_success_response(Value::Null, "/x".to_string(), Some(201), Some(t));
    assert_eq!(code, 201);
    assert_eq!(body.status_code, 201);
    assert_eq!(body.time, t);
}

#[test]
fn failure_response_defaults_and_overrides() {
    let (code, body) = generate_failure_response(Value::Null, "/f".to_string(), None, None, None);
    assert_eq!(code, 500);
    assert!(body.is_error);
    let (code, body) = generate_failure_response(Value::Null, "/f".to_string(), Some(406), None, Some(false));
    assert_eq!(code, 406);
    assert_eq!(body.status_code, 406);
    assert!(!body.is_error);
}

#[test]
fn default_response_body() {
    let body = ApplicationResponse::default();
    assert_eq!(body.url, "/");
    assert_eq!(body.status_code, 500);
    assert!(body.is_error);
    assert_eq!(body.data, Value::String("{}".to_string()));
}

#[test]
fn db_health_replies() {
    let (code, body) = db_health_reply(true, "/db-health".to_string());
    assert_eq!(code, 200);
    assert!(!body.is_error);
    assert_eq!(body.data, obj("status", Value::String("Ok".to_string())));
    let (code, body) = db_health_reply(false, "/db-health".to_string());
    assert_eq!(code, 404);
    assert!(body.is_error);
    assert_eq!(body.data, obj("status", Value::String("failed".to_string())));
}

#[test]
fn shorten_replies() {
    let (code, body) = shorten_reply(Some(Value::Bool(true)), Value::Null, "/short".to_string());
    assert_eq!(code, 200);
    assert!(!body.is_error);
    assert_eq!(body.data, obj("data", Value::Bool(true)));
    let (code, body) = shorten_reply(None, Value::Null, "/short".to_string());
    assert_eq!(code, 500);
    assert!(body.is_error);
}

#[test]
fn short_url_at_stamps_given_time_or_refuses_past_last_day() {
    let r = short_url_at("https://example.com".to_string(), "abc-_Z".to_string(), 0).unwrap();
    assert_eq!(r.created_on, 0);
    assert_eq!(r.expiries_at, 86_400);
    assert_eq!(r.hash, url_hash("abc-_Z"));
    let last = 8_210_266_876_799 - 86_400;
    assert!(short_url_at("https://example.com".to_string(), "abc-_Z".to_string(), last).is_some());
    assert!(short_url_at("https://example.com".to_string(), "abc-_Z".to_string(), last + 1).is_none());
}

fn at(seconds: i64) -> chrono::NaiveDateTime {
    chrono::DateTime::from_timestamp(seconds, 0).unwrap().naive_utc()
}

#[test]
fn responses_stamped_with_given_time_or_clock_reading() {
    let (_, body) = generate_success_response_at(Value::Null, "/s".to_string(), None, None, at(10));
    assert_eq!(body.time, at(10));
    let (_, body) = generate_success_response_at(Value::Null, "/s".to_string(), None, Some(at(5)), at(10));
    assert_eq!(body.time, at(5));
    let (code, body) = generate_failure_response_at(Value::Null, "/f".to_string(), None, None, None, at(20));
    assert_eq!(code, 500);
    assert_eq!(body.time, at(20));
    let (_, body) = generate_failure_response_at(Value::Null, "/f".to_string(), None, Some(at(1)), None, at(20));
    assert_eq!(body.time, at(1));
    let body = ApplicationResponse::default_at(at(30));
    assert_eq!(body.time, at(30));
    assert_eq!(body.data, Value::String("{}".to_string()));
}

#[test]
fn rejection_reply_is_406_error() {
    let rejection = check_url_param(None).unwrap_err();
    let (code, body) = reject_reply(&rejection, "/short".to_string());
    assert_eq!(body.data, obj("msg", Value::String("url param not provided.".to_string())));
    assert_eq!(code, 406);
    assert_eq!(body.status_code, 406);
    assert!(body.is_error);
    assert_eq!(body.url, "/short");
}

#[test]
fn storing_an_accepted_id_keeps_ids_unique_and_keyed() {
    let mut store: Vec<Url> = vec![
        build_short_url("https://a".to_string(), "aaaaaa".to_string(), 1),
        build_short_url("https://b".to_string(), "bbbbbb".to_string(), 2),
    ];
    let candidate = "cccccc".to_string();
    let taken = store.iter().any(|r| r.short_url == candidate);
    let accepted = match on_id_lookup(candidate, 0, taken) {
        IdOutcome::Accept(id) => id,
        IdOutcome::Retry(_) => panic!("free id refused"),
    };
    let mut stored = build_short_url("https://c".to_string(), accepted, 3);
    stored.id = 3;
    store.push(stored);
    for (i, r) in store.iter().enumerate() {
        assert_eq!(r.hash, url_hash(&r.short_url));
        for s in &store[i + 1..] {
            assert_ne!(r.short_url, s.short_url);
        }
    }
    assert_eq!(store.iter().filter(|r| r.short_url == "cccccc").count(), 1);
}

#[test]
fn short_id_check() {
    assert!(check_short_id("abc-_Z"));
    assert!(check_short_id("012345"));
    assert!(!check_short_id("abc"));
    assert!(!check_short_id("abcdefg"));
    assert!(!check_short_id("abc de"));
    assert!(!check_short_id("abcdé1"));
}
