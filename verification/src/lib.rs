//! Analytical query compiler and cache-aside orchestration for a trade fact table.

pub mod cache;
pub mod config;
pub mod datagen;
pub mod db;
pub mod error;
pub mod handlers;
pub mod models;
pub mod query;
pub mod reshape;
pub mod text;
pub mod views;
