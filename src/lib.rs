//! A personal music-library index: track and playlist records, a compiler
//! from structured search queries to bound SQL, and a store over SQLite.
pub mod error;
pub mod decimal;
pub mod membership;
pub mod model;
pub mod query;
pub mod select;
mod sqlite;
pub mod store;
pub mod laws;
