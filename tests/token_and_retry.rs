use zkom_client::{
    contains_str, get_token_expiry, should_refresh, split_on_dot, DeviceError, DeviceManager, ErrorClass,
    RetryOutcome, RetryPolicy,
};

const HEADER: &str = "eyJhbGciOiJIUzI1NiJ9";

fn token_with(payload: &str) -> String {
    format!("{}.{}.sig", HEADER, payload)
}

#[test]
fn expiry_is_read_from_the_payload() {
    assert_eq!(get_token_expiry(&token_with("eyJleHAiOjEwMDB9")).unwrap(), 1000);
}

#[test]
fn refresh_at_the_threshold_boundary() {
    let t = token_with("eyJleHAiOjEwMDB9");
    assert_eq!(should_refresh(&t, 300, 700).unwrap(), true);
    assert_eq!(should_refresh(&t, 300, 699).unwrap(), false);
    assert_eq!(should_refresh(&t, 0, 1000).unwrap(), true);
    assert_eq!(should_refresh(&t, 0, 999).unwrap(), false);
    assert_eq!(should_refresh(&t, u64::MAX, u64::MAX).unwrap(), true);
}

#[test]
fn malformed_tokens_are_parse_errors() {
    for t in [
        "onlyone".to_string(),
        "a.b".to_string(),
        "a.b.c.d".to_string(),
        token_with("!!!"),
        token_with("eyJpYXQiOjF9"),
        token_with("bm90IGpzb24"),
    ] {
        assert!(matches!(should_refresh(&t, 300, 0), Err(DeviceError::TokenParseError(_))), "{}", t);
    }
}

#[test]
fn manager_reads_expiry_and_clock() {
    let m = DeviceManager::new("http://h".to_string());
    let t = token_with("eyJleHAiOjEwMDB9");
    assert_eq!(m.get_token_expiry(&t).unwrap(), 1000);
    assert_eq!(m.should_refresh_token(&t, 300).unwrap(), true);
    assert!(matches!(m.should_refresh_token("x.y", 300), Err(DeviceError::TokenParseError(_))));
}

#[test]
fn split_and_contains() {
    assert_eq!(split_on_dot("a.bc..d"), vec!["a", "bc", "", "d"]);
    assert_eq!(split_on_dot(""), vec![""]);
    assert!(contains_str("HTTP 401 Unauthorized", "401"));
    assert!(!contains_str("HTTP 403 Forbidden", "401"));
    assert!(contains_str("abc", ""));
}

#[test]
fn backoff_delays_double() {
    let p = RetryPolicy::new(5, 1000).unwrap();
    let delays: Vec<u64> = (1..=5).map(|k| p.delay_for_attempt(k)).collect();
    assert_eq!(delays, vec![1000, 2000, 4000, 8000, 16000]);
    assert!(RetryPolicy::new(0, 1000).is_none());
    assert!(RetryPolicy::new(64, 1).is_some());
    assert!(RetryPolicy::new(65, 1).is_none());
    assert!(RetryPolicy::new(64, 0).is_some());
}

#[test]
fn always_retryable_runs_max_attempts() {
    let p = RetryPolicy::compute_backend();
    let mut invocations = 0u32;
    let mut waits = Vec::new();
    let last = loop {
        invocations += 1;
        let err = format!("failure {}", invocations);
        match p.after_failure(invocations, ErrorClass::Retryable, err) {
            RetryOutcome::RetryAfter(d) => waits.push(d),
            RetryOutcome::GiveUp(e) => break e,
        }
    };
    assert_eq!(invocations, 5);
    assert_eq!(last, "failure 5");
    assert_eq!(waits, vec![1000, 2000, 4000, 8000]);
}

#[test]
fn fatal_error_stops_at_once() {
    let p = RetryPolicy::compute_backend();
    assert_eq!(p.after_failure(1, ErrorClass::Fatal, "bad"), RetryOutcome::GiveUp("bad"));
}
