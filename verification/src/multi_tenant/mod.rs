//! Multi-tenant support: tenant configuration, resolution and isolation.

pub mod adapter;
pub mod config_database;
pub mod config_inmemory;
pub mod config_provider;
pub mod config_store;
pub mod configuration;
pub mod database;
pub mod provider;
pub mod resolver;
pub mod scim_config;
