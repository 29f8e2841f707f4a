//! The backend-agnostic storage layer: queries, changesets, capabilities,
//! errors, and the rules that the SQLite adapter and the caching store follow.

pub mod cached;
pub mod error;
pub mod query;
pub mod sqlite;
pub mod types;
