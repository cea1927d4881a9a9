//! The client API: the requests it accepts, the answers it gives, and the
//! rules between them.
pub mod admin;
pub mod auth;
pub mod blocks;
pub mod checks;
pub mod clips;
pub mod bookmarks;
pub mod drive;
pub mod drive_folders;
pub mod follow_requests;
pub mod instance;
pub mod notifications;
pub mod oauth;
pub mod search;
pub mod statuses;
pub mod stream;
pub mod timeline;
pub mod user_lists;
pub mod users;
pub mod push;
