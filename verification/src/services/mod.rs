//! The server's services: the rules they apply to the records they read.
pub mod antenna;
pub mod auth;
pub mod bookmark;
pub mod chart;
pub mod drive_folder;
pub mod emoji;
pub mod export;
pub mod filter;
pub mod follow_request;
pub mod instance;
pub mod note;
pub mod oauth;
pub mod push;
pub mod relay;
pub mod timeline;
pub mod vapid;
pub mod web_push;
