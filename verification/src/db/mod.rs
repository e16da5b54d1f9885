//! Rows as the database hands them out.

pub mod models;
