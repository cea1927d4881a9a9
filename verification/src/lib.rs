//! Verified core of the Mithic ActivityPub server: the rules, parsers and
//! builders behind its HTTP handlers, federation and services.
pub mod text;
pub mod json;
pub mod ids;
pub mod time;
pub mod error;
pub mod models;
pub mod db;
pub mod services;
pub mod polls;
pub mod hashtags;
pub mod federation;
pub mod encoding;
pub mod activitypub;
pub mod api;
