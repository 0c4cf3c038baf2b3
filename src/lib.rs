//! Data-access models for a small URL-shortening service and the
//! credential check that guards it.
pub mod auth;
pub mod config;
pub mod database;
pub mod hashing;
pub mod models;
pub mod records;
pub mod schema;
pub mod time;
