//! The records of atproto repositories and what the site makes of them.
pub mod atpage;
pub mod auth;
pub mod record;
pub mod service;
