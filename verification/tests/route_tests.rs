use portfolio::error::AppError;
use portfolio::middleware::auth::AdminUser;
use portfolio::routes::api::Stats;
use portfolio::routes::auth::{
    bearer_authorization, get_oauth_client, token_exchange_error, token_exchange_form, CallbackAction, CallbackEvent, CallbackFlow, CallbackQuery, CallbackStage, GitHubUser,
    GITHUB_AUTHORIZE_URL, GITHUB_TOKEN_URL,
};

fn s(x: &str) -> Option<String> {
    Some(x.to_string())
}

#[test]
fn admin_guard_requires_authenticated_flag() {
    assert_eq!(AdminUser::from_session(None, s("1"), s("me"), s("a")), None);
    assert_eq!(AdminUser::from_session(Some(false), s("1"), s("me"), s("a")), None);
}

#[test]
fn admin_guard_requires_id_and_username() {
    assert_eq!(AdminUser::from_session(Some(true), None, s("me"), s("a")), None);
    assert_eq!(AdminUser::from_session(Some(true), s("1"), s(""), s("a")), None);
    assert_eq!(AdminUser::from_session(Some(true), s(""), s("me"), None), None);
}

#[test]
fn admin_guard_accepts_a_full_session() {
    assert_eq!(
        AdminUser::from_session(Some(true), s("42"), s("me"), None),
        Some(AdminUser { user_id: "42".to_string(), github_username: "me".to_string(), avatar_url: String::new() })
    );
}

fn flow(state: &str) -> CallbackFlow {
    CallbackFlow::new(CallbackQuery { code: "the-code".to_string(), state: state.to_string() }, "KadynJaiPearce".to_string())
}

#[test]
fn callback_rejects_a_wrong_or_missing_state() {
    let mut f = flow("abc");
    match f.step(CallbackEvent::StoredState(s("xyz"))) {
        CallbackAction::Reject(e) => assert_eq!(e, AppError::Unauthorized("Invalid OAuth state".to_string())),
        other => panic!("{:?}", other),
    }
    assert_eq!(f.stage, CallbackStage::Finished);
    let mut f = flow("abc");
    match f.step(CallbackEvent::StoredState(None)) {
        CallbackAction::Reject(e) => assert_eq!(e, AppError::Unauthorized("Invalid OAuth state".to_string())),
        other => panic!("{:?}", other),
    }
}

#[test]
fn callback_signs_in_the_admin_whatever_the_case() {
    let mut f = flow("abc");
    match f.step(CallbackEvent::StoredState(s("abc"))) {
        CallbackAction::ExchangeCode { code } => assert_eq!(code, "the-code"),
        other => panic!("{:?}", other),
    }
    match f.step(CallbackEvent::TokenIssued("tok".to_string())) {
        CallbackAction::FetchUser { access_token } => assert_eq!(access_token, "tok"),
        other => panic!("{:?}", other),
    }
    let user = GitHubUser { login: "kadynjaipearce".to_string(), id: 9_876_543_210, avatar_url: "https://a/b".to_string() };
    match f.step(CallbackEvent::UserFetched(user)) {
        CallbackAction::SignIn(admin) => assert_eq!(
            admin,
            AdminUser {
                user_id: "9876543210".to_string(),
                github_username: "kadynjaipearce".to_string(),
                avatar_url: "https://a/b".to_string()
            }
        ),
        other => panic!("{:?}", other),
    }
    assert_eq!(f.stage, CallbackStage::Finished);
}

#[test]
fn callback_refuses_other_accounts() {
    let mut f = flow("abc");
    f.step(CallbackEvent::StoredState(s("abc")));
    f.step(CallbackEvent::TokenIssued("tok".to_string()));
    let user = GitHubUser { login: "someone".to_string(), id: 1, avatar_url: String::new() };
    match f.step(CallbackEvent::UserFetched(user)) {
        CallbackAction::Reject(e) => assert_eq!(
            e,
            AppError::Unauthorized("You are not authorized to access the admin panel".to_string())
        ),
        other => panic!("{:?}", other),
    }
}

#[test]
fn callback_compares_logins_with_unicode_lowercasing() {
    let mut f = CallbackFlow::new(CallbackQuery { code: "c".to_string(), state: "s".to_string() }, "ÄDMIN".to_string());
    f.step(CallbackEvent::StoredState(s("s")));
    f.step(CallbackEvent::TokenIssued("t".to_string()));
    let user = GitHubUser { login: "ädmin".to_string(), id: -7, avatar_url: String::new() };
    match f.step(CallbackEvent::UserFetched(user)) {
        CallbackAction::SignIn(admin) => assert_eq!(admin.user_id, "-7"),
        other => panic!("{:?}", other),
    }
}

#[test]
fn oauth_client_checks_the_redirect_url() {
    let ok = get_oauth_client("id".to_string(), "secret".to_string(), "https://site.dev/auth/github/callback".to_string()).unwrap();
    assert_eq!(ok.auth_url, GITHUB_AUTHORIZE_URL);
    assert_eq!(ok.token_url, GITHUB_TOKEN_URL);
    assert_eq!(ok.redirect_url, "https://site.dev/auth/github/callback");
    assert_eq!(ok.client_id, "id");
    assert_eq!(ok.client_secret, "secret");
    assert_eq!(
        get_oauth_client("id".to_string(), "secret".to_string(), "not a url".to_string()),
        Err(AppError::InternalError("relative URL without a base".to_string()))
    );
}

#[test]
fn stats_default_missing_counts_to_zero() {
    assert_eq!(Stats::from_counts(Some(4), Some(9)), Stats { projects: 4, posts: 9, years_experience: 5 });
    assert_eq!(Stats::from_counts(None, None), Stats { projects: 0, posts: 0, years_experience: 5 });
}

#[test]
fn signed_in_session_passes_the_admin_guard() {
    let mut f = flow("st");
    f.step(CallbackEvent::StoredState(s("st")));
    f.step(CallbackEvent::TokenIssued("t".to_string()));
    let user = GitHubUser { login: "KadynJaiPearce".to_string(), id: 0, avatar_url: "https://a".to_string() };
    let admin = match f.step(CallbackEvent::UserFetched(user)) {
        CallbackAction::SignIn(admin) => admin,
        other => panic!("{:?}", other),
    };
    let read_back = AdminUser::from_session(
        Some(true),
        Some(admin.user_id.clone()),
        Some(admin.github_username.clone()),
        Some(admin.avatar_url.clone()),
    );
    assert_eq!(read_back, Some(admin));
}

#[test]
fn only_the_code_exchange_clears_the_stored_state() {
    let mut f = flow("st");
    let first = f.step(CallbackEvent::StoredState(s("st")));
    assert!(first.clears_oauth_state());
    let second = f.step(CallbackEvent::TokenIssued("t".to_string()));
    assert!(!second.clears_oauth_state());
    // A replay of the same callback finds no stored state and is refused.
    let mut replay = flow("st");
    match replay.step(CallbackEvent::StoredState(None)) {
        CallbackAction::Reject(e) => assert_eq!(e, AppError::Unauthorized("Invalid OAuth state".to_string())),
        other => panic!("{:?}", other),
    }
}

#[test]
fn token_exchange_request_and_errors() {
    let form = token_exchange_form("cid", "sec", "the-code", "https://x/cb");
    assert_eq!(
        form,
        vec![
            ("client_id".to_string(), "cid".to_string()),
            ("client_secret".to_string(), "sec".to_string()),
            ("code".to_string(), "the-code".to_string()),
            ("redirect_uri".to_string(), "https://x/cb".to_string()),
        ]
    );
    assert_eq!(
        token_exchange_error("bad json"),
        AppError::InternalError("Token exchange failed: bad json".to_string())
    );
    assert_eq!(bearer_authorization("gho_1"), "Bearer gho_1");
}
