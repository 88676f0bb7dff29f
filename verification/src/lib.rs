//! Verified core of the Frontend Forge controller and runner.
pub mod text;
pub mod json;
pub mod duplicate;
pub mod time;
pub mod api;
pub mod resource;
pub mod manifest;
pub mod decimal;
pub mod labels;
pub mod digest;
pub mod canonical;
pub mod spec_json;
pub mod controller;
pub mod runner;
pub mod config;
pub mod laws;
