//! Verified core of a portfolio web site: content models, query building,
//! e-mail composition, GitHub statistics and the admin sign-in rules.

pub mod db;
pub mod error;
pub mod middleware;
pub mod models;
pub mod routes;
pub mod services;
pub mod text;
