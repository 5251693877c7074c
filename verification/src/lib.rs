//! Verified core of an investment-portfolio web application: input rules,
//! login and registration decisions, session claims, configuration parsing
//! and the Brazilian currency format used by the dashboard.

pub mod text;
pub mod routes;
pub mod error;
pub mod auth;
pub mod config;
