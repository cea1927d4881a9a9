//! The ActivityPub side of the server: actors, collections, notes and
//! WebFinger, as other servers see them.
pub mod actor;
pub mod webfinger;
pub mod inbox;
pub mod notes;
pub mod collections;
