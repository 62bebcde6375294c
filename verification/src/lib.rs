//! An in-memory store for a small social-posting service: users with unique
//! names and monotonically assigned identifiers, and short text posts.
pub mod db;
