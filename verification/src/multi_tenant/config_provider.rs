//! Queries, results and validation shared by tenant configuration providers.

use vstd::prelude::*;
use vstd::utf8::encode_utf8;
use crate::collections::StrMap;
use crate::multi_tenant::configuration::{ConfigurationError, TenantConfiguration};
use crate::text::{char_is_alphanumeric, concat, decimal, decimal_string, is_alphanumeric};

verus! {

/// Query for listing configurations.
#[derive(Debug, Clone)]
pub struct ConfigurationQuery {
    /// Only these tenants, when given.
    pub tenant_ids: Option<Vec<String>>,
    /// Only display names containing this text, compared in lower case.
    pub display_name_filter: Option<String>,
    /// Only configurations modified strictly after this instant (microseconds).
    pub modified_after: Option<i64>,
    /// Only configurations modified strictly before this instant (microseconds).
    pub modified_before: Option<i64>,
    /// Number of results to skip.
    pub offset: Option<usize>,
    /// Maximum number of results.
    pub limit: Option<usize>,
    /// Order of the results.
    pub sort_order: SortOrder,
}

impl Default for ConfigurationQuery {
    fn default() -> (r: Self)
        ensures
            r.tenant_ids is None,
            r.display_name_filter is None,
            r.modified_after is None,
            r.modified_before is None,
            r.offset is None,
            r.limit is None,
            r.sort_order == SortOrder::TenantIdAsc,
    {
        ConfigurationQuery {
            tenant_ids: None,
            display_name_filter: None,
            modified_after: None,
            modified_before: None,
            offset: None,
            limit: None,
            sort_order: SortOrder::TenantIdAsc,
        }
    }
}

/// Orders of configuration listings.
#[derive(Debug, Clone, Copy, PartialEq, Eq, Structural)]
pub enum SortOrder {
    TenantIdAsc,
    TenantIdDesc,
    DisplayNameAsc,
    DisplayNameDesc,
    LastModifiedAsc,
    LastModifiedDesc,
    CreatedAsc,
    CreatedDesc,
}

impl Default for SortOrder {
    fn default() -> (r: Self)
        ensures
            r == SortOrder::TenantIdAsc,
    {
        SortOrder::TenantIdAsc
    }
}

/// A page of configurations.
#[derive(Debug, Clone)]
pub struct ConfigurationQueryResult {
    /// The configurations of the page.
    pub configurations: Vec<TenantConfiguration>,
    /// The number of configurations matching the query.
    pub total_count: usize,
    /// Whether more matching configurations follow the page.
    pub has_more: bool,
    /// Offset of the next page, when there is one.
    pub next_offset: Option<usize>,
}

/// Statistics of a configuration store.
#[derive(Debug, Clone)]
pub struct ConfigurationStats {
    /// Number of stored configurations.
    pub total_configurations: usize,
    /// Number created in the last day.
    pub recent_configurations: usize,
    /// Number modified in the last day.
    pub recently_modified: usize,
    /// Average size in bytes.
    pub average_size: usize,
    /// Total size in bytes.
    pub total_storage_used: usize,
    /// Creation instant of the newest configuration, in microseconds.
    pub newest_configuration: Option<i64>,
    /// Creation instant of the oldest configuration, in microseconds.
    pub oldest_configuration: Option<i64>,
    /// Number of configurations per version.
    pub version_distribution: std::collections::HashMap<u64, usize>,
}

/// Context of a validation.
#[derive(Debug, Clone)]
pub struct ValidationContext {
    pub is_create: bool,
    pub previous_configuration: Option<TenantConfiguration>,
    pub validation_params: StrMap<String>,
}

/// One operation of a bulk request.
#[derive(Debug, Clone)]
pub enum BulkConfigurationOperation {
    Create(TenantConfiguration),
    Update(TenantConfiguration),
    Delete { tenant_id: String, expected_version: Option<u64> },
    Validate(TenantConfiguration),
}

/// The result of one bulk operation.
#[derive(Debug, Clone)]
pub enum BulkOperationResult {
    Success { tenant_id: String, operation: String, configuration: Option<TenantConfiguration> },
    Error { tenant_id: String, operation: String, error: String },
}

/// The largest serialised configuration accepted, in bytes.
pub const MAX_CONFIG_SIZE: usize = 1048576;

/// Whether a tenant id character is allowed.
pub open spec fn tenant_id_char_ok(c: char) -> bool {
    char_is_alphanumeric(c) || c == '-' || c == '_'
}

/// The problem of a tenant id, if any; its length is counted in UTF-8 bytes.
pub open spec fn tenant_id_problem(id: Seq<char>) -> Option<Seq<char>> {
    if id.len() == 0 {
        Some("Tenant ID cannot be empty"@)
    } else if encode_utf8(id).len() > 255 {
        Some("Tenant ID cannot exceed 255 characters"@)
    } else if exists|i: int| 0 <= i < id.len() && !tenant_id_char_ok(#[trigger] id[i]) {
        Some("Tenant ID can only contain alphanumeric characters, hyphens, and underscores"@)
    } else {
        None
    }
}

/// The message of a configuration error, as it is displayed.
pub open spec fn error_text(e: ConfigurationError) -> Seq<char> {
    match e {
        ConfigurationError::ValidationError { message } => "Configuration validation failed: "@ + message@,
        ConfigurationError::NotFound { tenant_id } => "Configuration not found for tenant: "@ + tenant_id@,
        ConfigurationError::Conflict { message } => "Configuration conflict: "@ + message@,
        ConfigurationError::SerializationError { message } => "Serialization error: "@ + message@,
        ConfigurationError::VersionMismatch { expected, actual } => "Invalid configuration version: expected "@
            + decimal(expected as nat) + ", got "@ + decimal(actual as nat),
    }
}

impl ConfigurationError {
    /// The displayed message of this error.
    pub fn message(&self) -> (r: String)
        ensures
            r@ == error_text(*self),
    {
        match self {
            ConfigurationError::ValidationError { message } => concat("Configuration validation failed: ", message.as_str()),
            ConfigurationError::NotFound { tenant_id } => concat("Configuration not found for tenant: ", tenant_id.as_str()),
            ConfigurationError::Conflict { message } => concat("Configuration conflict: ", message.as_str()),
            ConfigurationError::SerializationError { message } => concat("Serialization error: ", message.as_str()),
            ConfigurationError::VersionMismatch { expected, actual } => {
                let a = concat("Invalid configuration version: expected ", decimal_string(*expected).as_str());
                let b = concat(a.as_str(), ", got ");
                concat(b.as_str(), decimal_string(*actual).as_str())
            },
        }
    }
}

/// A validation error carrying `message`.
pub open spec fn validation_error(message: Seq<char>, e: ConfigurationError) -> bool {
    e matches ConfigurationError::ValidationError { message: m } && m@ == message
}

/// The message for a configuration larger than the limit.
pub open spec fn size_message(size: nat) -> Seq<char> {
    "Configuration size ("@ + decimal(size) + " bytes) exceeds maximum allowed size (1048576 bytes)"@
}

/// Validation of tenant ids, versions and configuration sizes.
pub trait ConfigurationValidator {
    /// Fails unless the id is non-empty, at most 255 bytes long, and made of
    /// alphanumeric characters, hyphens and underscores.
    fn validate_tenant_id(&self, tenant_id: &str) -> (r: Result<(), ConfigurationError>)
        ensures
            match tenant_id_problem(tenant_id@) {
                Some(m) => r matches Err(e) && validation_error(m, e),
                None => r is Ok,
            },
    {
        if tenant_id.unicode_len() == 0 {
            return Err(ConfigurationError::ValidationError { message: "Tenant ID cannot be empty".to_string() });
        }
        let bytes = tenant_id.as_bytes();
        if bytes.len() > 255 {
            return Err(ConfigurationError::ValidationError {
                message: "Tenant ID cannot exceed 255 characters".to_string(),
            });
        }
        let n = tenant_id.unicode_len();
        let mut i: usize = 0;
        while i < n
            invariant
                n == tenant_id@.len(),
                n > 0,
                encode_utf8(tenant_id@).len() <= 255,
                i <= n,
                forall|j: int| 0 <= j < i ==> tenant_id_char_ok(tenant_id@[j]),
            decreases n - i,
        {
            let c = tenant_id.get_char(i);
            if !(is_alphanumeric(c) || c == '-' || c == '_') {
                assert(!tenant_id_char_ok(tenant_id@[i as int]));
                return Err(ConfigurationError::ValidationError {
                    message: "Tenant ID can only contain alphanumeric characters, hyphens, and underscores".to_string(),
                });
            }
            i = i + 1;
        }
        Ok(())
    }

    /// Fails for version 0.
    fn validate_version(&self, version: u64) -> (r: Result<(), ConfigurationError>)
        ensures
            version == 0 ==> (r matches Err(e) && validation_error("Configuration version must be greater than 0"@, e)),
            version != 0 ==> r is Ok,
    {
        if version == 0 {
            return Err(ConfigurationError::ValidationError {
                message: "Configuration version must be greater than 0".to_string(),
            });
        }
        Ok(())
    }

    /// Fails when a configuration serialised to `serialized_size` bytes
    /// exceeds the limit.
    fn validate_configuration_size(&self, serialized_size: usize) -> (r: Result<(), ConfigurationError>)
        ensures
            serialized_size > MAX_CONFIG_SIZE ==> (r matches Err(e) && validation_error(size_message(serialized_size as nat), e)),
            serialized_size <= MAX_CONFIG_SIZE ==> r is Ok,
    {
        if serialized_size > MAX_CONFIG_SIZE {
            let a = concat("Configuration size (", decimal_string(serialized_size as u64).as_str());
            return Err(ConfigurationError::ValidationError {
                message: concat(a.as_str(), " bytes) exceeds maximum allowed size (1048576 bytes)"),
            });
        }
        Ok(())
    }
}

} // verus!
