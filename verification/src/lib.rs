//! Verified core of a localhost usage dashboard: configuration, the SQLite
//! store of providers and accounts, secret-reference handling, and the
//! request rules of the web front end.

pub mod clock;
pub mod config;
pub mod database;
pub mod models;
pub mod providers;
pub mod secrets;
mod sqlite;
pub mod text;
pub mod web;
