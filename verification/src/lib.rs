//! Verified core of CloudMesh, a telemetry collection and node monitoring service.
pub mod agent;
pub mod api;
pub mod config;
pub mod db;
pub mod models;
pub mod numbers;
pub mod telemetry;
pub mod time;
pub mod text;
