//! Core library for Manifest.

pub mod config;
pub mod db;
pub mod github;
pub mod models;
pub mod store;
pub mod sync;
pub mod text;
pub mod time;
pub mod turso;
pub mod uuid_support;
