//! Core of a web-feed manager: username/password authentication with
//! expiring session tokens, and ownership-checked create/read/update/delete
//! of named feed definitions, over an in-memory record store.

pub mod auth;
pub mod clock;
pub mod feed;
pub mod hashing;
pub mod store;
pub mod token;
