//! Data-access core of an explorer for an ordered key-value store.

pub mod app;
pub mod bookmarks;
pub mod commands;
pub mod config;
pub mod constants;
pub mod db;
pub mod errors;
pub mod export;
pub mod jobs;
pub mod plugins;
pub mod trusted;
pub mod ui;
pub mod util;
