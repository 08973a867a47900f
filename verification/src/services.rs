//! Outside services the site talks to: e-mail delivery and GitHub.

pub mod email;
pub mod github;
