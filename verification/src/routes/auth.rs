//! GitHub sign-in: the OAuth settings and the decisions of the callback.

use vstd::prelude::*;

use crate::error::AppError;
use crate::middleware::auth::{guard_admits, AdminUser};
use crate::text::{concat_str, decimal_string, int_decimal, lemma_decimal_round_trip, lowercase_of, to_lowercase};

verus! {

/// GitHub's authorization endpoint.
pub const GITHUB_AUTHORIZE_URL: &'static str = "https://github.com/login/oauth/authorize";

/// GitHub's token endpoint.
pub const GITHUB_TOKEN_URL: &'static str = "https://github.com/login/oauth/access_token";

/// The scope asked of GitHub at sign-in.
pub const GITHUB_SCOPE: &'static str = "read:user";

/// Where the administrator lands after signing in.
pub const ADMIN_HOME: &'static str = "/admin";

/// GitHub's address for the account that an access token belongs to.
pub const GITHUB_CURRENT_USER_URL: &'static str = "https://api.github.com/user";

/// Where a visitor lands after signing out.
pub const SITE_HOME: &'static str = "/";

/// The query string GitHub sends back to the callback.
#[derive(Debug, Clone, PartialEq, Eq)]
pub struct CallbackQuery {
    pub code: String,
    pub state: String,
}

/// The GitHub account that completed the sign-in.
#[derive(Debug, Clone, PartialEq, Eq)]
pub struct GitHubUser {
    pub login: String,
    pub id: i64,
    pub avatar_url: String,
}

/// How far the callback has come.
#[derive(Debug, Clone, Copy, PartialEq, Eq)]
pub enum CallbackStage {
    /// The state stored in the session at login is still to be compared.
    AwaitingStoredState,
    /// The code is being exchanged for an access token.
    AwaitingToken,
    /// The GitHub account is being fetched.
    AwaitingUser,
    /// The callback has been answered.
    Finished,
}

/// What the outside world reports back to the callback.
#[derive(Debug)]
pub enum CallbackEvent {
    /// The state that the session held under `oauth_state` (`None` when there was none).
    StoredState(Option<String>),
    /// The access token that GitHub issued for the code.
    TokenIssued(String),
    /// The account that GitHub reports for the token.
    UserFetched(GitHubUser),
}

/// What the callback does next.
#[derive(Debug)]
pub enum CallbackAction {
    /// Remove `oauth_state` from the session and exchange `code` for a token.
    ExchangeCode { code: String },
    /// Ask GitHub for the account that `access_token` belongs to.
    FetchUser { access_token: String },
    /// Store the administrator in the session (with `authenticated = true`)
    /// and redirect to [`ADMIN_HOME`].
    SignIn(AdminUser),
    /// Answer with this error.
    Reject(AppError),
}

/// The decisions of the GitHub callback, one event at a time.
#[derive(Debug)]
pub struct CallbackFlow {
    pub query: CallbackQuery,
    pub admin_username: String,
    pub stage: CallbackStage,
}

/// Whether `event` is the one that `stage` waits for.
pub open spec fn event_expected(stage: CallbackStage, event: CallbackEvent) -> bool {
    match event {
        CallbackEvent::StoredState(_) => stage == CallbackStage::AwaitingStoredState,
        CallbackEvent::TokenIssued(_) => stage == CallbackStage::AwaitingToken,
        CallbackEvent::UserFetched(_) => stage == CallbackStage::AwaitingUser,
    }
}

/// Whether the stored state is the one that came back in the query.
pub open spec fn state_matches(stored: Option<String>, query: CallbackQuery) -> bool {
    match stored {
        Some(s) => s@ == query.state@,
        None => false,
    }
}

/// Whether the GitHub account is the configured administrator, compared without regard to case.
pub open spec fn is_admin_login(login: Seq<char>, admin_username: Seq<char>) -> bool {
    lowercase_of(login) == lowercase_of(admin_username)
}

/// The step relation of the callback: from `pre`, `event` leads to `action` and `post`.
pub open spec fn callback_step(
    pre: CallbackFlow,
    event: CallbackEvent,
    action: CallbackAction,
    post: CallbackFlow,
) -> bool {
    &&& post.query == pre.query
    &&& post.admin_username == pre.admin_username
    &&& match event {
        CallbackEvent::StoredState(stored) => if state_matches(stored, pre.query) {
            &&& post.stage == CallbackStage::AwaitingToken
            &&& action matches CallbackAction::ExchangeCode { code } && code@ == pre.query.code@
        } else {
            &&& post.stage == CallbackStage::Finished
            &&& action matches CallbackAction::Reject(AppError::Unauthorized(m)) && m@
                == "Invalid OAuth state"@
        },
        CallbackEvent::TokenIssued(token) => {
            &&& post.stage == CallbackStage::AwaitingUser
            &&& action matches CallbackAction::FetchUser { access_token } && access_token@
                == token@
        },
        CallbackEvent::UserFetched(user) => {
            &&& post.stage == CallbackStage::Finished
            &&& if is_admin_login(user.login@, pre.admin_username@) {
                action matches CallbackAction::SignIn(admin) && admin.user_id@ == int_decimal(
                    user.id as int,
                ) && admin.github_username@ == user.login@ && admin.avatar_url@
                    == user.avatar_url@
            } else {
                action matches CallbackAction::Reject(AppError::Unauthorized(m)) && m@
                    == "You are not authorized to access the admin panel"@
            }
        },
    }
}

/// `flows[i]` leads by `events[i]` to `actions[i]` and `flows[i + 1]`, each event
/// being the one its stage waits for.
pub open spec fn is_callback_run(
    flows: Seq<CallbackFlow>,
    events: Seq<CallbackEvent>,
    actions: Seq<CallbackAction>,
) -> bool {
    &&& flows.len() == events.len() + 1
    &&& actions.len() == events.len()
    &&& forall|i: int|
        #![trigger events[i]]
        0 <= i < events.len() ==> event_expected(flows[i].stage, events[i]) && callback_step(
            flows[i],
            events[i],
            actions[i],
            flows[i + 1],
        )
}

/// Law: a callback signs someone in only as its third step, only after the
/// state stored at login matched the state that came back, and only when the
/// GitHub account is the administrator; and the code is exchanged only right
/// after a matching state.
pub proof fn lemma_sign_in_needs_state_and_admin(
    flows: Seq<CallbackFlow>,
    events: Seq<CallbackEvent>,
    actions: Seq<CallbackAction>,
    k: int,
)
    requires
        is_callback_run(flows, events, actions),
        flows[0].stage == CallbackStage::AwaitingStoredState,
        0 <= k < actions.len(),
    ensures
        actions[k] is SignIn ==> {
            &&& k == 2
            &&& events[0] matches CallbackEvent::StoredState(stored) && state_matches(
                stored,
                flows[0].query,
            )
            &&& events[2] matches CallbackEvent::UserFetched(user) && is_admin_login(
                user.login@,
                flows[0].admin_username@,
            )
        },
        actions[k] is ExchangeCode ==> k == 0 && (events[0] matches CallbackEvent::StoredState(
            stored,
        ) && state_matches(stored, flows[0].query)),
{
    assert(callback_step(flows[0], events[0], actions[0], flows[1]));
    if k >= 1 {
        assert(callback_step(flows[1], events[1], actions[1], flows[2]));
        assert(event_expected(flows[1].stage, events[1]));
        assert(flows[1].stage == CallbackStage::AwaitingToken);
    }
    if k >= 2 {
        assert(callback_step(flows[2], events[2], actions[2], flows[3]));
        assert(event_expected(flows[2].stage, events[2]));
        assert(flows[1].query == flows[0].query);
        assert(flows[2].admin_username == flows[0].admin_username);
    }
    if k >= 3 {
        assert(flows[3].stage == CallbackStage::Finished);
        assert(event_expected(flows[3].stage, events[3]));
    }
}

/// Law: the session that a sign-in writes (the administrator's entries and
/// `authenticated = true`) is one that the admin guard lets in, and the guard
/// reads back the same administrator, provided GitHub reported a non-empty login.
pub proof fn lemma_signed_in_session_passes_guard(
    pre: CallbackFlow,
    event: CallbackEvent,
    admin: AdminUser,
    post: CallbackFlow,
)
    requires
        callback_step(pre, event, CallbackAction::SignIn(admin), post),
        event matches CallbackEvent::UserFetched(user) && user.login@.len() > 0,
    ensures
        guard_admits(Some(true), Some(admin.user_id), Some(admin.github_username)),
{
    if let CallbackEvent::UserFetched(user) = event {
        lemma_decimal_round_trip(user.id as int);
    }
}

/// The session's `oauth_state` entry once the app has carried out `action`:
/// removed when the code is exchanged, left as it was otherwise.
pub open spec fn oauth_state_after(action: CallbackAction, before: Option<Seq<char>>) -> Option<
    Seq<char>,
> {
    if action is ExchangeCode {
        None
    } else {
        before
    }
}

/// Law: the state stored at login serves one callback only. When a callback
/// passes the state check, the session is left with no `oauth_state`, and a
/// later callback that reads what is left is refused as having an invalid state.
pub proof fn lemma_oauth_state_used_once(
    pre: CallbackFlow,
    stored: Option<String>,
    action: CallbackAction,
    post: CallbackFlow,
    later_pre: CallbackFlow,
    later_stored: Option<String>,
    later_action: CallbackAction,
    later_post: CallbackFlow,
)
    requires
        callback_step(pre, CallbackEvent::StoredState(stored), action, post),
        state_matches(stored, pre.query),
        opt_text(later_stored) == oauth_state_after(action, opt_text(stored)),
        callback_step(later_pre, CallbackEvent::StoredState(later_stored), later_action, later_post),
    ensures
        oauth_state_after(action, opt_text(stored)) is None,
        later_action matches CallbackAction::Reject(AppError::Unauthorized(m)) && m@
            == "Invalid OAuth state"@,
{
    assert(later_stored is None);
}

impl CallbackAction {
    /// Whether carrying out this action removes `oauth_state` from the session.
    pub fn clears_oauth_state(&self) -> (res: bool)
        ensures
            res == (*self is ExchangeCode),
            forall|before: Option<Seq<char>>|
                res ==> #[trigger] oauth_state_after(*self, before) is None,
    {
        match self {
            CallbackAction::ExchangeCode { .. } => true,
            _ => false,
        }
    }
}

/// The form posted to GitHub's token endpoint to exchange `code` for a token.
pub fn token_exchange_form(client_id: &str, client_secret: &str, code: &str, redirect_uri: &str) -> (res:
    Vec<(String, String)>)
    ensures
        res@.len() == 4,
        res@[0].0@ == "client_id"@ && res@[0].1@ == client_id@,
        res@[1].0@ == "client_secret"@ && res@[1].1@ == client_secret@,
        res@[2].0@ == "code"@ && res@[2].1@ == code@,
        res@[3].0@ == "redirect_uri"@ && res@[3].1@ == redirect_uri@,
{
    let mut form: Vec<(String, String)> = Vec::new();
    form.push(("client_id".to_string(), client_id.to_string()));
    form.push(("client_secret".to_string(), client_secret.to_string()));
    form.push(("code".to_string(), code.to_string()));
    form.push(("redirect_uri".to_string(), redirect_uri.to_string()));
    form
}

/// The error when GitHub's answer to the token exchange could not be read.
pub fn token_exchange_error(detail: &str) -> (res: AppError)
    ensures
        res matches AppError::InternalError(m) && m@ == "Token exchange failed: "@ + detail@,
{
    AppError::InternalError(concat_str("Token exchange failed: ", detail))
}

/// The `Authorization` header that presents `access_token` to GitHub.
pub fn bearer_authorization(access_token: &str) -> (res: String)
    ensures
        res@ == "Bearer "@ + access_token@,
{
    concat_str("Bearer ", access_token)
}

impl CallbackFlow {
    /// A callback that has just received `query`; `admin_username` is the GitHub
    /// login allowed into the admin pages.
    pub fn new(query: CallbackQuery, admin_username: String) -> (res: CallbackFlow)
        ensures
            res.query == query,
            res.admin_username == admin_username,
            res.stage == CallbackStage::AwaitingStoredState,
    {
        CallbackFlow { query, admin_username, stage: CallbackStage::AwaitingStoredState }
    }

    /// Takes in what the outside world reported and says what to do next.
    pub fn step(&mut self, event: CallbackEvent) -> (action: CallbackAction)
        requires
            event_expected(old(self).stage, event),
        ensures
            callback_step(*old(self), event, action, *final(self)),
    {
        match event {
            CallbackEvent::StoredState(stored) => {
                let matches = match &stored {
                    Some(s) => *s == self.query.state,
                    None => false,
                };
                if matches {
                    self.stage = CallbackStage::AwaitingToken;
                    CallbackAction::ExchangeCode { code: self.query.code.clone() }
                } else {
                    self.stage = CallbackStage::Finished;
                    CallbackAction::Reject(AppError::Unauthorized("Invalid OAuth state".to_string()))
                }
            },
            CallbackEvent::TokenIssued(token) => {
                self.stage = CallbackStage::AwaitingUser;
                CallbackAction::FetchUser { access_token: token }
            },
            CallbackEvent::UserFetched(user) => {
                self.stage = CallbackStage::Finished;
                let login_lower = to_lowercase(user.login.as_str());
                let admin_lower = to_lowercase(self.admin_username.as_str());
                if login_lower != admin_lower {
                    CallbackAction::Reject(
                        AppError::Unauthorized(
                            "You are not authorized to access the admin panel".to_string(),
                        ),
                    )
                } else {
                    CallbackAction::SignIn(
                        AdminUser {
                            user_id: decimal_string(user.id),
                            github_username: user.login,
                            avatar_url: user.avatar_url,
                        },
                    )
                }
            },
        }
    }
}


/// What `url::Url::parse` reports for a text: `None` when it parses as an
/// absolute URL, else the text of the parse error.
pub uninterp spec fn url_parse_failure(text: Seq<char>) -> Option<Seq<char>>;

/// The texts of an optional string.
pub open spec fn opt_text(s: Option<String>) -> Option<Seq<char>> {
    match s {
        Some(t) => Some(t@),
        None => None,
    }
}

/// `url::Url::parse` (which the `oauth2` URL types call to check their text),
/// reporting only whether it failed and the error's message. Claimed: the
/// outcome is a function of the text, named `url_parse_failure`; the URL
/// grammar is not stated.
#[verifier::external_body]
fn url_error(text: &str) -> (res: Option<String>)
    ensures
        opt_text(res) == url_parse_failure(text@),
{
    match oauth2::url::Url::parse(text) {
        Ok(_) => None,
        Err(e) => Some(e.to_string()),
    }
}

/// What the GitHub OAuth client is built from, every URL in it checked.
#[derive(Debug, Clone, PartialEq, Eq)]
pub struct OAuthClientConfig {
    pub client_id: String,
    pub client_secret: String,
    pub auth_url: String,
    pub token_url: String,
    pub redirect_url: String,
}

/// The first failure among the checks of the authorization, token and redirect URLs.
pub open spec fn first_url_failure(
    auth: Option<Seq<char>>,
    token: Option<Seq<char>>,
    redirect: Option<Seq<char>>,
) -> Option<Seq<char>> {
    if auth is Some {
        auth
    } else if token is Some {
        token
    } else {
        redirect
    }
}

/// The OAuth client settings, given the outcome of checking each URL
/// (`None` when it parsed, else the parse error's message): the first failure,
/// in the order authorization, token, redirect, becomes an internal error.
pub fn oauth_client_from_checks(
    client_id: String,
    client_secret: String,
    redirect_uri: String,
    auth_check: Option<String>,
    token_check: Option<String>,
    redirect_check: Option<String>,
) -> (res: Result<OAuthClientConfig, AppError>)
    ensures
        res is Err <==> first_url_failure(opt_text(auth_check), opt_text(token_check), opt_text(redirect_check)) is Some,
        res matches Err(e) ==> (e matches AppError::InternalError(m) && Some(m@) == first_url_failure(
            opt_text(auth_check),
            opt_text(token_check),
            opt_text(redirect_check),
        )),
        res matches Ok(c) ==> {
            &&& c.client_id == client_id
            &&& c.client_secret == client_secret
            &&& c.auth_url@ == GITHUB_AUTHORIZE_URL@
            &&& c.token_url@ == GITHUB_TOKEN_URL@
            &&& c.redirect_url == redirect_uri
        },
{
    if let Some(m) = auth_check {
        return Err(AppError::InternalError(m));
    }
    if let Some(m) = token_check {
        return Err(AppError::InternalError(m));
    }
    if let Some(m) = redirect_check {
        return Err(AppError::InternalError(m));
    }
    Ok(
        OAuthClientConfig {
            client_id,
            client_secret,
            auth_url: GITHUB_AUTHORIZE_URL.to_string(),
            token_url: GITHUB_TOKEN_URL.to_string(),
            redirect_url: redirect_uri,
        },
    )
}

/// The settings of the GitHub OAuth client, after checking that GitHub's
/// endpoints and the configured `redirect_uri` parse as URLs.
pub fn get_oauth_client(client_id: String, client_secret: String, redirect_uri: String) -> (res:
    Result<OAuthClientConfig, AppError>)
    ensures
        res is Err <==> first_url_failure(
            url_parse_failure(GITHUB_AUTHORIZE_URL@),
            url_parse_failure(GITHUB_TOKEN_URL@),
            url_parse_failure(redirect_uri@),
        ) is Some,
        res matches Err(e) ==> (e matches AppError::InternalError(m) && Some(m@) == first_url_failure(
            url_parse_failure(GITHUB_AUTHORIZE_URL@),
            url_parse_failure(GITHUB_TOKEN_URL@),
            url_parse_failure(redirect_uri@),
        )),
        res matches Ok(c) ==> {
            &&& c.client_id == client_id
            &&& c.client_secret == client_secret
            &&& c.auth_url@ == GITHUB_AUTHORIZE_URL@
            &&& c.token_url@ == GITHUB_TOKEN_URL@
            &&& c.redirect_url == redirect_uri
        },
{
    let auth_check = url_error(GITHUB_AUTHORIZE_URL);
    let token_check = url_error(GITHUB_TOKEN_URL);
    let redirect_check = url_error(redirect_uri.as_str());
    oauth_client_from_checks(client_id, client_secret, redirect_uri, auth_check, token_check, redirect_check)
}

} // verus!
