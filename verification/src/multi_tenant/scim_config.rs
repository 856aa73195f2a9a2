//! SCIM-specific tenant configuration: endpoint, clients, rate limits,
//! schema extensions, auditing and search.
//!
//! Instants are microseconds since the Unix epoch; durations are seconds.

use vstd::prelude::*;
use crate::collections::StrMap;
use crate::ids::now_micros;
use crate::json::JsonValue;
use crate::text::{owned, str_eq};

verus! {

/// Errors of SCIM tenant configuration.
#[derive(Debug, Clone)]
pub enum ScimConfigurationError {
    ValidationError { message: String },
    NotFound { tenant_id: String },
    ClientConflict { message: String },
    InvalidEndpoint { message: String },
    SchemaExtensionError { message: String },
}

/// SCIM configuration of one tenant.
#[derive(Debug, Clone)]
pub struct ScimTenantConfiguration {
    pub tenant_id: String,
    pub created_at: i64,
    pub last_modified: i64,
    pub version: u64,
    pub endpoint: ScimEndpointConfig,
    pub clients: Vec<ScimClientConfig>,
    pub rate_limits: ScimRateLimits,
    pub schema_config: ScimSchemaConfig,
    pub audit_config: ScimAuditConfig,
    pub search_config: ScimSearchConfig,
}

/// Endpoint settings.
#[derive(Debug, Clone)]
pub struct ScimEndpointConfig {
    pub base_path: String,
    pub include_tenant_in_path: bool,
    pub tenant_path_pattern: Option<String>,
    pub max_payload_size: usize,
    pub scim_version: String,
    pub supported_auth_schemes: Vec<ScimAuthScheme>,
}

/// Authentication schemes.
#[derive(Debug, Clone)]
pub enum ScimAuthScheme {
    Bearer,
    ApiKey,
    Basic,
    OAuth2,
    Custom(String),
}

/// A SCIM client of a tenant.
#[derive(Debug, Clone)]
pub struct ScimClientConfig {
    pub client_id: String,
    pub client_name: String,
    pub auth_config: ScimClientAuth,
    pub rate_limits: Option<ScimRateLimits>,
    pub allowed_operations: Vec<ScimOperation>,
    pub allowed_resource_types: Vec<String>,
    pub audit_enabled: bool,
    pub metadata: StrMap<JsonValue>,
}

/// Authentication of a client.
#[derive(Debug, Clone)]
pub struct ScimClientAuth {
    pub scheme: ScimAuthScheme,
    pub credentials: StrMap<String>,
    /// Token lifetime, in seconds.
    pub token_expiration_secs: Option<u64>,
    pub ip_restrictions: Vec<String>,
}

/// SCIM operations a client may perform.
#[derive(Debug, Clone, Copy, PartialEq, Eq, Structural)]
pub enum ScimOperation {
    Create,
    Read,
    Update,
    Delete,
    List,
    Search,
    Bulk,
    Schema,
}

/// Rate limits per kind of operation.
#[derive(Debug, Clone, Copy, PartialEq, Eq, Structural)]
pub struct ScimRateLimits {
    pub create_operations: Option<RateLimit>,
    pub read_operations: Option<RateLimit>,
    pub update_operations: Option<RateLimit>,
    pub delete_operations: Option<RateLimit>,
    pub list_operations: Option<RateLimit>,
    pub search_operations: Option<RateLimit>,
    pub bulk_operations: Option<RateLimit>,
    pub global_limit: Option<RateLimit>,
}

/// A limit on requests in a window.
#[derive(Debug, Clone, Copy, PartialEq, Eq, Structural)]
pub struct RateLimit {
    pub max_requests: u32,
    /// The window, in seconds.
    pub window_secs: u64,
    pub burst_allowance: Option<u32>,
}

/// Whether `count` requests reach an optional limit.
pub open spec fn limit_reached(limit: Option<RateLimit>, count: u32) -> bool {
    match limit {
        Some(l) => count >= l.max_requests,
        None => false,
    }
}

fn reached(limit: &Option<RateLimit>, count: u32) -> (r: bool)
    ensures
        r == limit_reached(*limit, count),
{
    match limit {
        Some(l) => count >= l.max_requests,
        None => false,
    }
}

impl RateLimit {
    /// A limit of `max_requests` per window, without burst allowance.
    pub fn new(max_requests: u32, window_secs: u64) -> (r: RateLimit)
        ensures
            r == (RateLimit { max_requests, window_secs, burst_allowance: None }),
    {
        RateLimit { max_requests, window_secs, burst_allowance: None }
    }

    /// This limit with a burst allowance.
    pub fn with_burst(self, burst: u32) -> (r: RateLimit)
        ensures
            r == (RateLimit { burst_allowance: Some(burst), ..self }),
    {
        RateLimit { burst_allowance: Some(burst), ..self }
    }
}

impl ScimRateLimits {
    /// Whether `current_count` create requests reach the limit.
    pub fn check_create_limit(&self, current_count: u32) -> (r: bool)
        ensures
            r == limit_reached(self.create_operations, current_count),
    {
        reached(&self.create_operations, current_count)
    }

    /// Whether `current_count` read requests reach the limit.
    pub fn check_read_limit(&self, current_count: u32) -> (r: bool)
        ensures
            r == limit_reached(self.read_operations, current_count),
    {
        reached(&self.read_operations, current_count)
    }

    /// Whether `current_count` update requests reach the limit.
    pub fn check_update_limit(&self, current_count: u32) -> (r: bool)
        ensures
            r == limit_reached(self.update_operations, current_count),
    {
        reached(&self.update_operations, current_count)
    }

    /// Whether `current_count` delete requests reach the limit.
    pub fn check_delete_limit(&self, current_count: u32) -> (r: bool)
        ensures
            r == limit_reached(self.delete_operations, current_count),
    {
        reached(&self.delete_operations, current_count)
    }

    /// Whether `current_count` list requests reach the limit.
    pub fn check_list_limit(&self, current_count: u32) -> (r: bool)
        ensures
            r == limit_reached(self.list_operations, current_count),
    {
        reached(&self.list_operations, current_count)
    }

    /// Whether `current_count` search requests reach the limit.
    pub fn check_search_limit(&self, current_count: u32) -> (r: bool)
        ensures
            r == limit_reached(self.search_operations, current_count),
    {
        reached(&self.search_operations, current_count)
    }
}

/// The default rate limits: per minute, 100 creates, 1000 reads, 100
/// updates, 50 deletes, 200 lists, 100 searches, 10 bulk requests and 2000 overall.
pub open spec fn default_scim_rate_limits() -> ScimRateLimits {
    ScimRateLimits {
        create_operations: Some(RateLimit { max_requests: 100, window_secs: 60, burst_allowance: None }),
        read_operations: Some(RateLimit { max_requests: 1000, window_secs: 60, burst_allowance: None }),
        update_operations: Some(RateLimit { max_requests: 100, window_secs: 60, burst_allowance: None }),
        delete_operations: Some(RateLimit { max_requests: 50, window_secs: 60, burst_allowance: None }),
        list_operations: Some(RateLimit { max_requests: 200, window_secs: 60, burst_allowance: None }),
        search_operations: Some(RateLimit { max_requests: 100, window_secs: 60, burst_allowance: None }),
        bulk_operations: Some(RateLimit { max_requests: 10, window_secs: 60, burst_allowance: None }),
        global_limit: Some(RateLimit { max_requests: 2000, window_secs: 60, burst_allowance: None }),
    }
}

impl Default for ScimRateLimits {
    fn default() -> (r: Self)
        ensures
            r == default_scim_rate_limits(),
    {
        ScimRateLimits {
            create_operations: Some(RateLimit::new(100, 60)),
            read_operations: Some(RateLimit::new(1000, 60)),
            update_operations: Some(RateLimit::new(100, 60)),
            delete_operations: Some(RateLimit::new(50, 60)),
            list_operations: Some(RateLimit::new(200, 60)),
            search_operations: Some(RateLimit::new(100, 60)),
            bulk_operations: Some(RateLimit::new(10, 60)),
            global_limit: Some(RateLimit::new(2000, 60)),
        }
    }
}

impl Default for ScimEndpointConfig {
    fn default() -> (r: Self)
        ensures
            r.base_path@ == "/scim/v2"@,
            !r.include_tenant_in_path,
            r.tenant_path_pattern is None,
            r.max_payload_size == 1048576,
            r.scim_version@ == "2.0"@,
            r.supported_auth_schemes@.len() == 2,
            r.supported_auth_schemes@[0] is Bearer,
            r.supported_auth_schemes@[1] is ApiKey,
    {
        ScimEndpointConfig {
            base_path: "/scim/v2".to_string(),
            include_tenant_in_path: false,
            tenant_path_pattern: None,
            max_payload_size: 1048576,
            scim_version: "2.0".to_string(),
            supported_auth_schemes: vec![ScimAuthScheme::Bearer, ScimAuthScheme::ApiKey],
        }
    }
}

/// Schema settings.
#[derive(Debug, Clone)]
pub struct ScimSchemaConfig {
    pub extensions: Vec<ScimSchemaExtension>,
    pub custom_attributes: StrMap<ScimCustomAttribute>,
    pub disabled_attributes: Vec<String>,
    pub additional_required: Vec<String>,
}

impl Default for ScimSchemaConfig {
    fn default() -> (r: Self)
        ensures
            r.extensions@.len() == 0,
            r.custom_attributes@ == Map::<Seq<char>, ScimCustomAttribute>::empty(),
            r.disabled_attributes@.len() == 0,
            r.additional_required@.len() == 0,
    {
        ScimSchemaConfig {
            extensions: Vec::new(),
            custom_attributes: StrMap::new(),
            disabled_attributes: Vec::new(),
            additional_required: Vec::new(),
        }
    }
}

/// A schema extension.
#[derive(Debug, Clone)]
pub struct ScimSchemaExtension {
    pub uri: String,
    pub enabled: bool,
    pub required: bool,
    pub attributes: StrMap<ScimCustomAttribute>,
}

/// A custom attribute definition.
#[derive(Debug, Clone)]
pub struct ScimCustomAttribute {
    pub name: String,
    pub attribute_type: String,
    pub multi_valued: bool,
    pub required: bool,
    pub case_exact: bool,
    pub mutability: String,
    pub returned: String,
    pub uniqueness: String,
    pub description: Option<String>,
    pub canonical_values: Option<Vec<String>>,
}

/// Audit settings.
#[derive(Debug, Clone)]
pub struct ScimAuditConfig {
    pub enabled: bool,
    pub audited_operations: Vec<ScimOperation>,
    pub include_payloads: bool,
    pub include_sensitive_data: bool,
    /// Retention, in seconds.
    pub retention_period_secs: u64,
    pub additional_metadata: StrMap<String>,
}

impl Default for ScimAuditConfig {
    fn default() -> (r: Self)
        ensures
            r.enabled,
            r.audited_operations@ == seq![ScimOperation::Create, ScimOperation::Update, ScimOperation::Delete],
            !r.include_payloads,
            !r.include_sensitive_data,
            r.retention_period_secs == 7776000,
            r.additional_metadata@ == Map::<Seq<char>, String>::empty(),
    {
        ScimAuditConfig {
            enabled: true,
            audited_operations: vec![ScimOperation::Create, ScimOperation::Update, ScimOperation::Delete],
            include_payloads: false,
            include_sensitive_data: false,
            retention_period_secs: 7776000,
            additional_metadata: StrMap::new(),
        }
    }
}

/// Search settings.
#[derive(Debug, Clone)]
pub struct ScimSearchConfig {
    pub max_results: u32,
    pub default_count: u32,
    pub max_filter_depth: u32,
    pub filterable_attributes: Vec<String>,
    pub sortable_attributes: Vec<String>,
    pub case_insensitive_filtering: bool,
    pub custom_operators: Vec<String>,
}

impl Default for ScimSearchConfig {
    fn default() -> (r: Self)
        ensures
            r.max_results == 200,
            r.default_count == 20,
            r.max_filter_depth == 10,
            r.filterable_attributes@.len() == 6,
            r.filterable_attributes@[0]@ == "userName"@,
            r.filterable_attributes@[1]@ == "displayName"@,
            r.filterable_attributes@[2]@ == "emails.value"@,
            r.filterable_attributes@[3]@ == "active"@,
            r.filterable_attributes@[4]@ == "meta.created"@,
            r.filterable_attributes@[5]@ == "meta.lastModified"@,
            r.sortable_attributes@.len() == 4,
            r.sortable_attributes@[0]@ == "userName"@,
            r.sortable_attributes@[1]@ == "displayName"@,
            r.sortable_attributes@[2]@ == "meta.created"@,
            r.sortable_attributes@[3]@ == "meta.lastModified"@,
            r.case_insensitive_filtering,
            r.custom_operators@.len() == 0,
    {
        ScimSearchConfig {
            max_results: 200,
            default_count: 20,
            max_filter_depth: 10,
            filterable_attributes: vec![
                "userName".to_string(),
                "displayName".to_string(),
                "emails.value".to_string(),
                "active".to_string(),
                "meta.created".to_string(),
                "meta.lastModified".to_string(),
            ],
            sortable_attributes: vec![
                "userName".to_string(),
                "displayName".to_string(),
                "meta.created".to_string(),
                "meta.lastModified".to_string(),
            ],
            case_insensitive_filtering: true,
            custom_operators: Vec::new(),
        }
    }
}

/// Whether `current_count` requests of the named operation reach its limit;
/// operations without a limit check are never limited.
pub open spec fn operation_rate_limited(limits: ScimRateLimits, operation: Seq<char>, count: u32) -> bool {
    if operation == "create"@ {
        limit_reached(limits.create_operations, count)
    } else if operation == "read"@ {
        limit_reached(limits.read_operations, count)
    } else if operation == "update"@ {
        limit_reached(limits.update_operations, count)
    } else if operation == "delete"@ {
        limit_reached(limits.delete_operations, count)
    } else if operation == "list"@ {
        limit_reached(limits.list_operations, count)
    } else if operation == "search"@ {
        limit_reached(limits.search_operations, count)
    } else {
        false
    }
}

impl ScimTenantConfiguration {
    /// A builder for the tenant.
    pub fn builder(tenant_id: String) -> (r: ScimTenantConfigurationBuilder)
        ensures
            r.tenant_id == tenant_id,
            r.endpoint is None,
            r.clients@.len() == 0,
            r.rate_limits is None,
            r.schema_config is None,
            r.audit_config is None,
            r.search_config is None,
    {
        ScimTenantConfigurationBuilder::new(tenant_id)
    }

    /// The first client with the given id.
    pub fn get_client_config(&self, client_id: &str) -> (r: Option<&ScimClientConfig>)
        ensures
            match r {
                Some(c) => exists|i: int|
                    0 <= i < self.clients@.len() && self.clients@[i] == *c && c.client_id@ == client_id@
                        && forall|j: int| 0 <= j < i ==> (#[trigger] self.clients@[j]).client_id@ != client_id@,
                None => forall|j: int| 0 <= j < self.clients@.len() ==> (#[trigger] self.clients@[j]).client_id@ != client_id@,
            },
    {
        let mut i: usize = 0;
        while i < self.clients.len()
            invariant
                i <= self.clients@.len(),
                forall|j: int| 0 <= j < i ==> (#[trigger] self.clients@[j]).client_id@ != client_id@,
            decreases self.clients@.len() - i,
        {
            if str_eq(self.clients[i].client_id.as_str(), client_id) {
                return Some(&self.clients[i]);
            }
            i = i + 1;
        }
        None
    }

    /// Whether `current_count` requests of the named operation reach its limit.
    pub fn is_rate_limited(&self, operation: &str, current_count: u32) -> (r: bool)
        ensures
            r == operation_rate_limited(self.rate_limits, operation@, current_count),
    {
        if str_eq(operation, "create") {
            self.rate_limits.check_create_limit(current_count)
        } else if str_eq(operation, "read") {
            self.rate_limits.check_read_limit(current_count)
        } else if str_eq(operation, "update") {
            self.rate_limits.check_update_limit(current_count)
        } else if str_eq(operation, "delete") {
            self.rate_limits.check_delete_limit(current_count)
        } else if str_eq(operation, "list") {
            self.rate_limits.check_list_limit(current_count)
        } else if str_eq(operation, "search") {
            self.rate_limits.check_search_limit(current_count)
        } else {
            false
        }
    }

    /// Whether an enabled schema extension has the given URI.
    pub fn has_schema_extension(&self, extension_uri: &str) -> (r: bool)
        ensures
            r == exists|i: int|
                0 <= i < self.schema_config.extensions@.len() && (#[trigger] self.schema_config.extensions@[i]).uri@
                    == extension_uri@ && self.schema_config.extensions@[i].enabled,
    {
        let exts = &self.schema_config.extensions;
        let mut i: usize = 0;
        while i < exts.len()
            invariant
                exts == &self.schema_config.extensions,
                i <= exts@.len(),
                forall|j: int| 0 <= j < i ==> !((#[trigger] exts@[j]).uri@ == extension_uri@ && exts@[j].enabled),
            decreases exts@.len() - i,
        {
            if exts[i].enabled && str_eq(exts[i].uri.as_str(), extension_uri) {
                assert(exts@[i as int].uri@ == extension_uri@ && exts@[i as int].enabled);
                return true;
            }
            i = i + 1;
        }
        false
    }
}

/// Builder of a SCIM tenant configuration.
pub struct ScimTenantConfigurationBuilder {
    pub tenant_id: String,
    pub endpoint: Option<ScimEndpointConfig>,
    pub clients: Vec<ScimClientConfig>,
    pub rate_limits: Option<ScimRateLimits>,
    pub schema_config: Option<ScimSchemaConfig>,
    pub audit_config: Option<ScimAuditConfig>,
    pub search_config: Option<ScimSearchConfig>,
}

/// The same limit for every kind of operation and overall.
pub open spec fn uniform_limits(limit: RateLimit) -> ScimRateLimits {
    ScimRateLimits {
        create_operations: Some(limit),
        read_operations: Some(limit),
        update_operations: Some(limit),
        delete_operations: Some(limit),
        list_operations: Some(limit),
        search_operations: Some(limit),
        bulk_operations: Some(limit),
        global_limit: Some(limit),
    }
}

impl ScimTenantConfigurationBuilder {
    /// A builder with nothing set.
    pub fn new(tenant_id: String) -> (r: ScimTenantConfigurationBuilder)
        ensures
            r.tenant_id == tenant_id,
            r.endpoint is None,
            r.clients@.len() == 0,
            r.rate_limits is None,
            r.schema_config is None,
            r.audit_config is None,
            r.search_config is None,
    {
        ScimTenantConfigurationBuilder {
            tenant_id,
            endpoint: None,
            clients: Vec::new(),
            rate_limits: None,
            schema_config: None,
            audit_config: None,
            search_config: None,
        }
    }

    /// Sets the endpoint's base path.
    pub fn with_endpoint_path(self, path: &str) -> (r: ScimTenantConfigurationBuilder)
        ensures
            r.endpoint matches Some(e) && e.base_path@ == path@ && (self.endpoint matches Some(old_e) ==> (
            e.include_tenant_in_path == old_e.include_tenant_in_path && e.max_payload_size == old_e.max_payload_size)),
            r.tenant_id == self.tenant_id,
            r.clients == self.clients,
            r.rate_limits == self.rate_limits,
    {
        let mut b = self;
        let mut endpoint = match b.endpoint {
            Some(e) => e,
            None => ScimEndpointConfig::default(),
        };
        endpoint.base_path = owned(path);
        b.endpoint = Some(endpoint);
        b
    }

    /// Sets the same rate limit for every kind of operation and overall.
    pub fn with_scim_rate_limit(self, max_requests: u32, window_secs: u64) -> (r: ScimTenantConfigurationBuilder)
        ensures
            r.rate_limits == Some(uniform_limits(RateLimit { max_requests, window_secs, burst_allowance: None })),
            r.tenant_id == self.tenant_id,
            r.clients == self.clients,
            r.endpoint == self.endpoint,
    {
        let limit = RateLimit::new(max_requests, window_secs);
        let mut b = self;
        let mut limits = match b.rate_limits {
            Some(l) => l,
            None => ScimRateLimits::default(),
        };
        limits.global_limit = Some(limit);
        limits.create_operations = Some(limit);
        limits.read_operations = Some(limit);
        limits.update_operations = Some(limit);
        limits.delete_operations = Some(limit);
        limits.list_operations = Some(limit);
        limits.search_operations = Some(limit);
        limits.bulk_operations = Some(limit);
        b.rate_limits = Some(limits);
        b
    }

    /// Adds a client authenticated by API key, allowed the six CRUD and
    /// query operations on Users and Groups, with auditing.
    pub fn with_scim_client(self, client_id: &str, api_key: &str) -> (r: ScimTenantConfigurationBuilder)
        ensures
            r.clients@.len() == self.clients@.len() + 1,
            forall|i: int| 0 <= i < self.clients@.len() ==> r.clients@[i] == self.clients@[i],
            r.clients@.last().client_id@ == client_id@,
            r.clients@.last().client_name@ == client_id@,
            r.clients@.last().auth_config.scheme is ApiKey,
            r.clients@.last().auth_config.credentials@.contains_key("api_key"@),
            r.clients@.last().auth_config.credentials@["api_key"@]@ == api_key@,
            r.clients@.last().allowed_operations@ == seq![ScimOperation::Create, ScimOperation::Read,
                ScimOperation::Update, ScimOperation::Delete, ScimOperation::List, ScimOperation::Search],
            r.clients@.last().audit_enabled,
            r.tenant_id == self.tenant_id,
            r.rate_limits == self.rate_limits,
    {
        let mut credentials: StrMap<String> = StrMap::new();
        credentials.insert("api_key".to_string(), owned(api_key));
        let client = ScimClientConfig {
            client_id: owned(client_id),
            client_name: owned(client_id),
            auth_config: ScimClientAuth {
                scheme: ScimAuthScheme::ApiKey,
                credentials,
                token_expiration_secs: None,
                ip_restrictions: Vec::new(),
            },
            rate_limits: None,
            allowed_operations: vec![
                ScimOperation::Create,
                ScimOperation::Read,
                ScimOperation::Update,
                ScimOperation::Delete,
                ScimOperation::List,
                ScimOperation::Search,
            ],
            allowed_resource_types: vec!["User".to_string(), "Group".to_string()],
            audit_enabled: true,
            metadata: StrMap::new(),
        };
        let mut b = self;
        b.clients.push(client);
        b
    }

    /// Enables audit logging.
    pub fn enable_scim_audit_log(self) -> (r: ScimTenantConfigurationBuilder)
        ensures
            r.audit_config matches Some(a) && a.enabled,
            r.tenant_id == self.tenant_id,
            r.clients == self.clients,
            r.rate_limits == self.rate_limits,
    {
        let mut b = self;
        let mut audit = match b.audit_config {
            Some(a) => a,
            None => ScimAuditConfig::default(),
        };
        audit.enabled = true;
        b.audit_config = Some(audit);
        b
    }

    /// Adds an enabled schema extension.
    pub fn with_schema_extension(self, uri: &str, required: bool) -> (r: ScimTenantConfigurationBuilder)
        ensures
            r.schema_config matches Some(s) && s.extensions@.len() == (match self.schema_config {
                Some(old_s) => old_s.extensions@.len(),
                None => 0,
            }) + 1 && s.extensions@.last().uri@ == uri@ && s.extensions@.last().enabled && s.extensions@.last().required == required,
            r.tenant_id == self.tenant_id,
            r.clients == self.clients,
            r.rate_limits == self.rate_limits,
    {
        let mut b = self;
        let mut schema = match b.schema_config {
            Some(s) => s,
            None => ScimSchemaConfig::default(),
        };
        schema.extensions.push(ScimSchemaExtension { uri: owned(uri), enabled: true, required, attributes: StrMap::new() });
        b.schema_config = Some(schema);
        b
    }

    /// Builds the configuration at instant `now`, with version 1.
    pub fn build_at(self, now: i64) -> (r: Result<ScimTenantConfiguration, ScimConfigurationError>)
        ensures
            r matches Ok(c) && c.tenant_id == self.tenant_id && c.created_at == now && c.last_modified == now
                && c.version == 1 && c.clients == self.clients && c.rate_limits == match self.rate_limits {
                Some(l) => l,
                None => default_scim_rate_limits(),
            } && (self.endpoint matches Some(e) ==> c.endpoint == e) && (self.schema_config matches Some(s)
                ==> c.schema_config == s) && (self.audit_config matches Some(a) ==> c.audit_config == a),
    {
        Ok(ScimTenantConfiguration {
            tenant_id: self.tenant_id,
            created_at: now,
            last_modified: now,
            version: 1,
            endpoint: match self.endpoint {
                Some(e) => e,
                None => ScimEndpointConfig::default(),
            },
            clients: self.clients,
            rate_limits: match self.rate_limits {
                Some(l) => l,
                None => ScimRateLimits::default(),
            },
            schema_config: match self.schema_config {
                Some(s) => s,
                None => ScimSchemaConfig::default(),
            },
            audit_config: match self.audit_config {
                Some(a) => a,
                None => ScimAuditConfig::default(),
            },
            search_config: match self.search_config {
                Some(s) => s,
                None => ScimSearchConfig::default(),
            },
        })
    }

    /// Builds the configuration now, with version 1.
    pub fn build(self) -> (r: Result<ScimTenantConfiguration, ScimConfigurationError>)
        ensures
            r matches Ok(c) && c.tenant_id == self.tenant_id && c.created_at == c.last_modified
                && c.version == 1 && c.clients == self.clients && c.rate_limits == match self.rate_limits {
                Some(l) => l,
                None => default_scim_rate_limits(),
            } && (self.endpoint matches Some(e) ==> c.endpoint == e) && (self.schema_config matches Some(s)
                ==> c.schema_config == s) && (self.audit_config matches Some(a) ==> c.audit_config == a),
    {
        let now = now_micros();
        self.build_at(now)
    }
}

} // verus!
