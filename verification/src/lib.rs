//! A SCIM 2.0 server library: resources, tenants, providers and operations.

pub mod collections;
pub mod ids;
pub mod json;
pub mod json_text;
pub mod provider_capabilities;
pub mod multi_tenant;
pub mod operation_handler;
pub mod providers;
pub mod resource;
pub mod schema;
pub mod storage;
pub mod text;
