//! Core logic of the `stool` terminal helper: error values, configuration
//! records, command plans and the decisions behind the interactive menus.

pub mod text;
pub mod error;
pub mod config;
pub mod command;
pub mod interactive;
pub mod transfer;
pub mod docker;
pub mod aws;
pub mod filesystem;
pub mod update;
pub mod flows;
pub mod ecr_flows;
pub mod sso_flows;
pub mod laws;
pub mod destination_laws;
pub mod quick;
pub mod ssh;
