//! Who may use the admin pages: the signed-in administrator recorded in the session.

use vstd::prelude::*;

use crate::text::{string_or_default, text_or_empty};

verus! {

/// Where a visitor without an admin session is sent.
pub const LOGIN_PATH: &'static str = "/auth/github";

/// The administrator signed in through GitHub, as the session records them.
#[derive(Debug, Clone, PartialEq, Eq)]
pub struct AdminUser {
    pub user_id: String,
    pub github_username: String,
    pub avatar_url: String,
}

/// Whether the guard lets a session with these entries into the admin pages.
pub open spec fn guard_admits(
    authenticated: Option<bool>,
    user_id: Option<String>,
    github_username: Option<String>,
) -> bool {
    authenticated == Some(true) && text_or_empty(user_id).len() > 0 && text_or_empty(
        github_username,
    ).len() > 0
}

impl AdminUser {
    /// The decision that guards the admin pages, made from what the session holds
    /// under `authenticated`, `user_id`, `github_username` and `avatar_url`
    /// (`None` for a missing entry or one that could not be read).
    ///
    /// `None` means: answer with a redirect to [`LOGIN_PATH`].
    pub fn from_session(
        authenticated: Option<bool>,
        user_id: Option<String>,
        github_username: Option<String>,
        avatar_url: Option<String>,
    ) -> (res: Option<AdminUser>)
        ensures
            res is Some <==> guard_admits(authenticated, user_id, github_username),
            res matches Some(u) ==> {
                &&& u.user_id@ == text_or_empty(user_id)
                &&& u.github_username@ == text_or_empty(github_username)
                &&& u.avatar_url@ == text_or_empty(avatar_url)
            },
    {
        let signed_in = match authenticated {
            Some(b) => b,
            None => false,
        };
        if !signed_in {
            return None;
        }
        let user_id = string_or_default(user_id);
        let github_username = string_or_default(github_username);
        let avatar_url = string_or_default(avatar_url);
        if user_id.as_str().is_empty() || github_username.as_str().is_empty() {
            return None;
        }
        Some(AdminUser { user_id, github_username, avatar_url })
    }
}

} // verus!
