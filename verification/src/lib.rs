//! Verified core of the Suno command-line client.
pub mod text;
pub mod errors;
pub mod json;
pub mod cookies;
pub mod auth;
pub mod clerk;
pub mod browser;
pub mod types;
pub mod cli;
pub mod doctor;
pub mod output;
pub mod commands;
