//! Verified core of a cookie-based JWT authentication backend: cookie
//! formatting and parsing, token framing and issuing, password hashing,
//! token digests and the decisions that the HTTP handlers take.

pub mod text;
pub mod cookies;
pub mod digest;
pub mod jwt;
pub mod models;
pub mod password;
pub mod auth;
pub mod rate_limit;
