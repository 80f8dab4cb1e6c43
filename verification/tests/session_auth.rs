use actix_session::{SessionExt, SessionStatus};
use actix_web::test::TestRequest;
use session_auth::login::{login_stale, LoginSession};
use session_auth::provider::{derive_token, derive_token_observed, SessionAuthProvider};
use session_auth::store::SessionStore;
use session_auth::token::{AuthState, ReadError};
use session_auth::pipeline::{Pipeline, PipelineStage};

fn now_secs() -> u64 {
    std::time::SystemTime::now()
        .duration_since(std::time::UNIX_EPOCH)
        .unwrap()
        .as_secs()
}

#[test]
fn scenario_login_mfa_roundtrip() {
    let req = TestRequest::default().to_http_request();
    let mut login = LoginSession::new(SessionStore::for_request(&req));
    let view = SessionStore::for_request(&req);
    let provider = SessionAuthProvider;

    login.set_user("u1").unwrap();
    let token = provider.get_auth_token(&view).unwrap();
    assert_eq!(token.user, "u1");
    assert_eq!(token.state, AuthState::Authenticated);

    login.needs_mfa("totp").unwrap();
    let token = provider.get_auth_token(&view).unwrap();
    assert_eq!(token.user, "u1");
    assert_eq!(token.state, AuthState::NeedsMfa);

    login.mfa_challenge_done();
    let token = provider.get_auth_token(&view).unwrap();
    assert_eq!(token.user, "u1");
    assert_eq!(token.state, AuthState::Authenticated);
}

#[test]
fn scenario_never_set_user_is_unauthorized() {
    let req = TestRequest::default().to_http_request();
    let view = SessionStore::for_request(&req);
    let provider = SessionAuthProvider;

    assert!(provider.get_auth_token(&view).is_err());
}

#[test]
fn scenario_freshness_deadline() {
    let req = TestRequest::default().to_http_request();
    let mut login = LoginSession::new(SessionStore::for_request(&req));

    login.valid_until(now_secs() - 1).unwrap();
    assert!(login.no_longer_valid());

    login.valid_until(now_secs() + 3600).unwrap();
    assert!(!login.no_longer_valid());
}

#[test]
fn absent_deadline_is_stale() {
    let req = TestRequest::default().to_http_request();
    let login = LoginSession::new(SessionStore::for_request(&req));
    assert!(login.no_longer_valid());
}

#[test]
fn unreadable_deadline_is_stale() {
    let req = TestRequest::default().to_http_request();
    let session = req.get_session();
    session.insert("login_valid_until", "soon").unwrap();
    let login = LoginSession::new(SessionStore::for_request(&req));
    assert!(login.no_longer_valid());
}

#[test]
fn stale_decision_exact_values() {
    assert!(login_stale(&Ok(Some(10)), 11));
    assert!(!login_stale(&Ok(Some(10)), 10));
    assert!(!login_stale(&Ok(Some(10)), 9));
    assert!(login_stale(&Ok(None), 0));
    assert!(login_stale(&Err(ReadError), u64::MAX));
}

#[test]
fn reset_rotates_identity_and_clears_entries() {
    let req = TestRequest::default().to_http_request();
    let session = req.get_session();
    let mut login = LoginSession::new(SessionStore::for_request(&req));
    let view = SessionStore::for_request(&req);
    let provider = SessionAuthProvider;

    login.set_user("u1").unwrap();
    login.needs_mfa("totp").unwrap();
    login.valid_until(now_secs() + 3600).unwrap();

    login.reset();

    assert_eq!(session.status(), SessionStatus::Renewed);
    assert!(session.entries().is_empty());
    assert!(provider.get_auth_token(&view).is_err());
    assert!(login.no_longer_valid());
}

#[test]
fn destroy_then_derivation_is_unauthorized() {
    let req = TestRequest::default().to_http_request();
    let session = req.get_session();
    let mut login = LoginSession::new(SessionStore::for_request(&req));
    let view = SessionStore::for_request(&req);
    let provider = SessionAuthProvider;

    login.set_user("u1").unwrap();
    assert!(provider.get_auth_token(&view).is_ok());

    login.destroy();

    assert_eq!(session.status(), SessionStatus::Purged);
    assert!(provider.get_auth_token(&view).is_err());
}

#[test]
fn invalidate_purges_the_record() {
    let req = TestRequest::default().to_http_request();
    let session = req.get_session();
    let mut login = LoginSession::new(SessionStore::for_request(&req));
    let provider = SessionAuthProvider;

    login.set_user("u1").unwrap();
    let mut view = SessionStore::for_request(&req);
    provider.invalidate(&mut view);

    assert_eq!(session.status(), SessionStatus::Purged);
    assert!(provider.get_auth_token(&view).is_err());
}

#[test]
fn set_user_overwrites_prior_value() {
    let req = TestRequest::default().to_http_request();
    let mut login = LoginSession::new(SessionStore::for_request(&req));
    let view = SessionStore::for_request(&req);
    let provider = SessionAuthProvider;

    login.set_user("u1").unwrap();
    login.set_user("u2").unwrap();
    let token = provider.get_auth_token(&view).unwrap();
    assert_eq!(token.user, "u2");
}

#[test]
fn mfa_challenge_done_is_idempotent() {
    let req = TestRequest::default().to_http_request();
    let mut login = LoginSession::new(SessionStore::for_request(&req));
    let view = SessionStore::for_request(&req);
    let provider = SessionAuthProvider;

    login.set_user("u1").unwrap();
    login.mfa_challenge_done();
    login.mfa_challenge_done();
    let token = provider.get_auth_token(&view).unwrap();
    assert_eq!(token.state, AuthState::Authenticated);
}

#[test]
fn unreadable_user_entry_fails_closed() {
    let req = TestRequest::default().to_http_request();
    let session = req.get_session();
    session.insert("user", 42u64).unwrap();
    let view = SessionStore::for_request(&req);
    let provider = SessionAuthProvider;

    assert!(provider.get_auth_token(&view).is_err());
}

#[test]
fn unreadable_mfa_entry_fails_closed() {
    let req = TestRequest::default().to_http_request();
    let session = req.get_session();
    session.insert("needs_mfa", 42u64).unwrap();
    let mut login = LoginSession::new(SessionStore::for_request(&req));
    let view = SessionStore::for_request(&req);
    let provider = SessionAuthProvider;

    login.set_user("u1").unwrap();
    assert!(provider.get_auth_token(&view).is_err());
}

#[test]
fn derivation_combines_the_two_reads() {
    let token = derive_token(Ok(Some("u1".to_string())), Ok(None)).unwrap();
    assert_eq!(token.user, "u1");
    assert_eq!(token.state, AuthState::Authenticated);

    let token = derive_token(Ok(Some("u1".to_string())), Ok(Some("totp".to_string()))).unwrap();
    assert_eq!(token.user, "u1");
    assert_eq!(token.state, AuthState::NeedsMfa);

    assert!(derive_token(Ok(None), Ok(None)).is_err());
    assert!(derive_token(Ok(None), Ok(Some("totp".to_string()))).is_err());
    assert!(derive_token(Err(ReadError), Ok(None)).is_err());
    assert!(derive_token(Ok(Some("u1".to_string())), Err(ReadError)).is_err());
}

#[test]
fn mfa_store_fault_is_reported() {
    let req = TestRequest::default().to_http_request();
    let session = req.get_session();
    session.insert("needs_mfa", 42u64).unwrap();
    let mut login = LoginSession::new(SessionStore::for_request(&req));
    let view = SessionStore::for_request(&req);
    let provider = SessionAuthProvider;

    login.set_user("u1").unwrap();
    let (outcome, store_fault) = provider.get_auth_token_observed(&view);
    assert!(outcome.is_err());
    assert!(store_fault);
}

#[test]
fn absent_user_is_no_store_fault() {
    let req = TestRequest::default().to_http_request();
    let session = req.get_session();
    session.insert("needs_mfa", 42u64).unwrap();
    let view = SessionStore::for_request(&req);
    let provider = SessionAuthProvider;

    let (outcome, store_fault) = provider.get_auth_token_observed(&view);
    assert!(outcome.is_err());
    assert!(!store_fault);
}

#[test]
fn readable_session_is_no_store_fault() {
    let req = TestRequest::default().to_http_request();
    let mut login = LoginSession::new(SessionStore::for_request(&req));
    let view = SessionStore::for_request(&req);
    let provider = SessionAuthProvider;

    login.set_user("u1").unwrap();
    login.needs_mfa("totp").unwrap();
    let (outcome, store_fault) = provider.get_auth_token_observed(&view);
    assert_eq!(outcome.unwrap().state, AuthState::NeedsMfa);
    assert!(!store_fault);
}

#[test]
fn observed_derivation_flags_only_the_mfa_fault() {
    let (r, fault) = derive_token_observed(Ok(Some("u1".to_string())), Err(ReadError));
    assert!(r.is_err());
    assert!(fault);

    let (r, fault) = derive_token_observed(Ok(None), Err(ReadError));
    assert!(r.is_err());
    assert!(!fault);

    let (r, fault) = derive_token_observed(Err(ReadError), Err(ReadError));
    assert!(r.is_err());
    assert!(!fault);

    let (r, fault) = derive_token_observed(Ok(Some("u1".to_string())), Ok(None));
    assert_eq!(r.unwrap().state, AuthState::Authenticated);
    assert!(!fault);
}

#[test]
fn writes_on_a_live_record_always_succeed() {
    let req = TestRequest::default().to_http_request();
    let mut login = LoginSession::new(SessionStore::for_request(&req));

    assert_eq!(login.set_user("u1"), Ok(()));
    assert_eq!(login.needs_mfa("totp"), Ok(()));
    assert_eq!(login.valid_until(u64::MAX), Ok(()));
}

#[test]
fn writes_on_a_purged_record_have_no_effect() {
    let req = TestRequest::default().to_http_request();
    let session = req.get_session();
    let mut login = LoginSession::new(SessionStore::for_request(&req));
    let view = SessionStore::for_request(&req);
    let provider = SessionAuthProvider;

    login.destroy();
    login.set_user("u1").unwrap();
    login.needs_mfa("totp").unwrap();

    assert_eq!(session.status(), SessionStatus::Purged);
    assert!(session.entries().is_empty());
    assert!(provider.get_auth_token(&view).is_err());
}

#[test]
fn pipeline_composes_in_the_fixed_order() {
    let pipeline = Pipeline::compose();
    let stages = pipeline.stages();
    assert_eq!(
        stages,
        vec![
            PipelineStage::SessionBinding,
            PipelineStage::AuthDerivation,
            PipelineStage::LoginHandling,
        ]
    );
}
