use gemini::auth::auth_interceptor::{bearer_metadata, token_from_fetch, RpcCode, RpcStatus, TokenState};
use gemini::auth::hyper_fetcher::TokenResponse;
use gemini::client::gemini::ApiKeyInterceptor;
use gemini::interceptor::{wait_for_expiry_secs, RefreshAction, RefreshLoop, RefreshOutcome};

#[test]
fn no_token_before_first_fetch() {
    let s = TokenState::new();
    assert!(!s.is_ready());
    let e = s.authorization().unwrap_err();
    assert_eq!(e.code, RpcCode::Unavailable);
    assert_eq!(
        e.message,
        "Hasnt fetched token yet. If you want to wait for the token, use get_client_when_ready()!"
    );
}

#[test]
fn stored_token_authorizes() {
    let mut s = TokenState::new();
    s.set_token(Ok("ya29.abc".to_string()));
    assert!(s.is_ready());
    assert_eq!(s.authorization().unwrap(), "Bearer ya29.abc");
    s.set_token(Err(RpcStatus { code: RpcCode::Internal, message: "down".to_string() }));
    assert!(!s.is_ready());
    let e = s.authorization().unwrap_err();
    assert_eq!((e.code, e.message.as_str()), (RpcCode::Internal, "down"));
}

#[test]
fn token_with_line_break_cannot_be_a_header() {
    let mut s = TokenState::new();
    s.set_token(Ok("a\nb".to_string()));
    assert!(s.is_ready());
    let e = s.authorization().unwrap_err();
    assert_eq!(e.code, RpcCode::Internal);
    assert_eq!(e.message, "Unable to authenticate gcp token");
    assert_eq!(bearer_metadata("tab\tok").unwrap(), "Bearer tab\tok");
    assert!(bearer_metadata("del\u{7f}").is_err());
}

#[test]
fn fetch_results_become_tokens() {
    let ok = token_from_fetch(Ok(TokenResponse {
        access_token: "t".to_string(),
        expires_in: 1,
        token_type: "Bearer".to_string(),
    }));
    assert_eq!(ok.unwrap(), "t");
    let e = token_from_fetch(Err("timed out".to_string())).unwrap_err();
    assert_eq!(e.code, RpcCode::Internal);
    assert_eq!(e.message, "Unable to fetch token: timed out");
}

#[test]
fn api_key_header_value() {
    assert_eq!(ApiKeyInterceptor::new("AIza-key".to_string()).api_key_value().unwrap(), "AIza-key");
    let e = ApiKeyInterceptor::new("bad\rkey".to_string()).api_key_value().unwrap_err();
    assert_eq!(e.code, RpcCode::InvalidArgument);
    assert_eq!(e.message, "Invalid API key format");
}

#[test]
fn expiry_waits() {
    assert_eq!(wait_for_expiry_secs(1000, 400), Some(600));
    assert_eq!(wait_for_expiry_secs(1000, 1000), Some(0));
    assert_eq!(wait_for_expiry_secs(1000, 1001), None);
}

#[test]
fn refresh_loop_pauses_after_five_failures() {
    let mut l = RefreshLoop::new();
    for _ in 0..5 {
        assert_eq!(l.next(RefreshOutcome::Failed), RefreshAction::Retry);
    }
    assert_eq!(l.next(RefreshOutcome::Failed), RefreshAction::Sleep(300));
    assert_eq!(l.retries, 6);
    assert_eq!(
        l.next(RefreshOutcome::Refreshed { expires_at: 5000, now: 1400 }),
        RefreshAction::Sleep(3600)
    );
    assert_eq!(l.next(RefreshOutcome::Refreshed { expires_at: 5, now: 10 }), RefreshAction::Retry);
    assert_eq!(l.next(RefreshOutcome::Failed), RefreshAction::Sleep(300));
    assert_eq!(l.retries, 7);
}
