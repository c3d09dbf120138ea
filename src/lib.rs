//! Control plane for on-demand development workspaces: a registry of
//! workspace records, a scheduler of delayed status transitions, and the
//! lifecycle manager that ties both together.

pub mod text;
pub mod status;
pub mod ids;
pub mod workspace;
pub mod store;
pub mod scheduler;
pub mod manager;
pub mod laws;
pub mod installer;
pub mod logging;
pub mod config;
pub mod provisioning;
pub mod users;
pub mod auth;
pub mod install;
pub mod services;
