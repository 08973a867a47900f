//! The decisions behind the site's HTTP endpoints.

pub mod api;
pub mod auth;
