//! Error type and statistics of in-memory resource providers.

use vstd::prelude::*;
use crate::providers::error::VersionConflict;

verus! {

/// Errors that can occur during in-memory provider operations.
#[derive(Debug, Clone)]
pub enum InMemoryError {
    ResourceNotFound { resource_type: String, id: String, tenant_id: String },
    DuplicateAttribute { resource_type: String, attribute: String, value: String, tenant_id: String },
    InvalidData { message: String },
    QueryError { message: String },
    Internal { message: String },
    InvalidInput { message: String },
    NotFound { resource_type: String, id: String },
    PreconditionFailed { message: String },
    DuplicateUserName { resource_type: String, username: String, tenant_id: String },
    PatchOperationFailed { message: String },
    VersionConflict { conflict: VersionConflict },
}

/// Statistics about the stored resources.
#[derive(Debug, Clone)]
pub struct InMemoryStats {
    /// Number of tenants holding resources.
    pub tenant_count: usize,
    /// Total number of resources across all tenants.
    pub total_resources: usize,
    /// Number of distinct resource types.
    pub resource_type_count: usize,
    /// The resource type names.
    pub resource_types: Vec<String>,
}

impl InMemoryStats {
    /// Empty statistics.
    pub fn new() -> (r: InMemoryStats)
        ensures
            r.tenant_count == 0,
            r.total_resources == 0,
            r.resource_type_count == 0,
            r.resource_types@.len() == 0,
    {
        InMemoryStats { tenant_count: 0, total_resources: 0, resource_type_count: 0, resource_types: Vec::new() }
    }

    /// Whether no resources are stored.
    pub fn is_empty(&self) -> (r: bool)
        ensures
            r == (self.total_resources == 0),
    {
        self.total_resources == 0
    }
}

impl Default for InMemoryStats {
    fn default() -> (r: InMemoryStats)
        ensures
            r.tenant_count == 0,
            r.total_resources == 0,
            r.resource_type_count == 0,
            r.resource_types@.len() == 0,
    {
        InMemoryStats::new()
    }
}

} // verus!
