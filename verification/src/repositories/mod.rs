//! Where creature records are kept.

pub mod pokemon;
pub mod sqlite;
