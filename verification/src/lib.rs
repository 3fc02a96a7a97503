//! Timeline: collects documents from self-hosted services (Paperless NGX)
//! and serves them as a web timeline behind an OpenID Connect login.
//!
//! - `integrations`: walking a service's document listing page by page;
//! - `integration`: the configured integrations and the sync schedule;
//! - `html`: the pages, with escaping of every piece of outside text;
//! - `auth`: the decisions of the login flow;
//! - `cli`: command-line settings;
//! - `text`: decimal text of integers.

pub mod auth;
pub mod cli;
pub mod html;
pub mod integration;
pub mod integrations;
pub mod text;
