//! Per-tenant configuration: schema customisation, operational limits,
//! compliance and branding.
//!
//! Instants are microseconds since the Unix epoch; durations are seconds.

use vstd::prelude::*;
use crate::collections::StrMap;
use crate::ids::now_micros;
use crate::json::{Json, JsonValue};
use crate::resource::strings_view;
use crate::text::{concat, str_eq};

verus! {

/// Errors of configuration management.
#[derive(Debug, Clone)]
pub enum ConfigurationError {
    /// The configuration is invalid.
    ValidationError { message: String },
    /// No configuration exists for the tenant.
    NotFound { tenant_id: String },
    /// The configuration conflicts with an existing one.
    Conflict { message: String },
    /// A configuration could not be serialised or parsed.
    SerializationError { message: String },
    /// The expected version differs from the stored one.
    VersionMismatch { expected: u64, actual: u64 },
}

/// Complete configuration of one tenant.
#[derive(Debug, Clone)]
pub struct TenantConfiguration {
    pub tenant_id: String,
    pub display_name: String,
    /// Creation instant, in microseconds since the Unix epoch.
    pub created_at: i64,
    /// Last modification instant, in microseconds since the Unix epoch.
    pub last_modified: i64,
    /// Version, incremented on every change.
    pub version: u64,
    pub schema: SchemaConfiguration,
    pub operational: OperationalConfiguration,
    pub compliance: ComplianceConfiguration,
    pub branding: BrandingConfiguration,
}

/// Schema customisation of a tenant.
#[derive(Debug, Clone)]
pub struct SchemaConfiguration {
    /// Custom attribute definitions by name.
    pub custom_attributes: StrMap<JsonValue>,
    /// Standard attributes that are disabled.
    pub disabled_attributes: Vec<String>,
    /// Attributes that are additionally required.
    pub additional_required: Vec<String>,
    /// Schema extensions.
    pub schema_extensions: Vec<SchemaExtension>,
    /// Validation rules by attribute.
    pub validation_rules: StrMap<ValidationRule>,
}

/// A schema extension of a tenant.
#[derive(Debug, Clone)]
pub struct SchemaExtension {
    pub id: String,
    pub name: String,
    pub description: String,
    pub schema: JsonValue,
    pub required: bool,
}

/// A validation rule for an attribute.
#[derive(Debug, Clone)]
pub struct ValidationRule {
    pub rule_type: ValidationType,
    pub parameters: StrMap<JsonValue>,
    pub error_message: String,
}

/// Kinds of validation rules.
#[derive(Debug, Clone, Copy, PartialEq, Eq, Structural)]
pub enum ValidationType {
    Regex,
    Length,
    Range,
    Enum,
    Custom,
}

/// Operational settings of a tenant.
#[derive(Debug, Clone)]
pub struct OperationalConfiguration {
    pub rate_limits: RateLimitConfiguration,
    pub resource_limits: ResourceLimits,
    /// Feature flags by name.
    pub feature_flags: StrMap<bool>,
    pub session_settings: SessionConfiguration,
    pub retention_settings: RetentionConfiguration,
    pub performance_settings: PerformanceConfiguration,
}

/// Periods of rate limits.
#[derive(Debug, Clone, Copy, PartialEq, Eq, Structural)]
pub enum RateLimitPeriod {
    Minute,
    Hour,
    Day,
}

/// Rate limits of a tenant.
#[derive(Debug, Clone, Copy, PartialEq, Eq, Structural)]
pub struct RateLimitConfiguration {
    pub requests_per_minute: Option<u32>,
    pub requests_per_hour: Option<u32>,
    pub requests_per_day: Option<u32>,
    pub burst_allowance: Option<u32>,
    /// Window of rate limiting, in seconds.
    pub window_duration_secs: u64,
}

/// Resource limits of a tenant.
#[derive(Debug, Clone, Copy, PartialEq, Eq, Structural)]
pub struct ResourceLimits {
    pub max_users: Option<usize>,
    pub max_groups: Option<usize>,
    pub max_custom_resources: Option<usize>,
    /// Maximum size of one resource, in bytes.
    pub max_resource_size: Option<usize>,
    /// Maximum total storage, in bytes.
    pub max_total_storage: Option<usize>,
}

/// Session settings of a tenant.
#[derive(Debug, Clone, Copy, PartialEq, Eq, Structural)]
pub struct SessionConfiguration {
    /// Session timeout, in seconds.
    pub session_timeout_secs: u64,
    /// Token lifetime, in seconds.
    pub token_expiration_secs: u64,
    pub allow_concurrent_sessions: bool,
    pub max_active_sessions: Option<u32>,
    pub require_mfa: bool,
}

/// Data retention settings of a tenant.
#[derive(Debug, Clone, Copy, PartialEq, Eq, Structural)]
pub struct RetentionConfiguration {
    /// Audit log retention, in seconds.
    pub audit_log_retention_secs: u64,
    /// Retention of deleted resources, in seconds.
    pub deleted_resource_retention_secs: u64,
    pub enable_automatic_backup: bool,
    /// Backup interval, in seconds.
    pub backup_frequency_secs: u64,
    /// Backup retention, in seconds.
    pub backup_retention_secs: u64,
}

/// Performance settings of a tenant.
#[derive(Debug, Clone, Copy, PartialEq, Eq, Structural)]
pub struct PerformanceConfiguration {
    pub enable_caching: bool,
    /// Cache lifetime, in seconds.
    pub cache_ttl_secs: u64,
    pub max_cache_size: Option<usize>,
    pub enable_query_optimization: bool,
    pub connection_pool_size: Option<u32>,
}

/// Compliance settings of a tenant.
#[derive(Debug, Clone)]
pub struct ComplianceConfiguration {
    pub audit_level: AuditLevel,
    pub encryption_requirements: EncryptionConfiguration,
    pub compliance_frameworks: Vec<ComplianceFramework>,
    pub data_residency: Option<String>,
    pub enable_pii_scrubbing: bool,
    /// Retention periods by data category, in seconds.
    pub data_retention_policies: StrMap<u64>,
}

/// Levels of audit logging.
#[derive(Debug, Clone, Copy, PartialEq, Eq, Structural)]
pub enum AuditLevel {
    /// No audit logging.
    Disabled,
    Basic,
    Full,
    Detailed,
}

/// Encryption settings of a tenant.
#[derive(Debug, Clone)]
pub struct EncryptionConfiguration {
    pub encrypt_at_rest: bool,
    pub encrypt_in_transit: bool,
    pub encryption_algorithm: Option<String>,
    /// Key rotation interval, in seconds.
    pub key_rotation_frequency_secs: Option<u64>,
    pub customer_managed_keys: bool,
}

/// Compliance frameworks.
#[derive(Debug, Clone)]
pub enum ComplianceFramework {
    GDPR,
    HIPAA,
    SOX,
    PCIDSS,
    ISO27001,
    SOC2,
    Custom(String),
}

/// Branding of a tenant.
#[derive(Debug, Clone)]
pub struct BrandingConfiguration {
    pub display_name: String,
    pub logo_url: Option<String>,
    pub primary_color: Option<String>,
    pub secondary_color: Option<String>,
    pub custom_css: Option<String>,
    pub favicon_url: Option<String>,
    pub footer_text: Option<String>,
    pub support_contact: Option<String>,
}

/// The contents of a JSON-valued map, by key.
pub open spec fn json_map(m: StrMap<JsonValue>) -> Map<Seq<char>, Json> {
    Map::new(|k: Seq<char>| m@.contains_key(k), |k: Seq<char>| m@[k]@)
}

fn json_copy(v: &JsonValue) -> (w: JsonValue)
    ensures
        w@ == v@,
{
    v.deep_clone()
}

fn rule_copy(v: &ValidationRule) -> (w: ValidationRule)
    ensures
        w.model() == v.model(),
{
    v.copy()
}

fn seconds_copy(v: &u64) -> (w: u64)
    ensures
        w == *v,
{
    *v
}

fn copy_json_map(m: &StrMap<JsonValue>) -> (r: StrMap<JsonValue>)
    ensures
        json_map(r) == json_map(*m),
{
    let r = m.copy_with::<Json, _>(json_copy, Ghost(|v: JsonValue| v@));
    assert(json_map(r) =~= json_map(*m));
    r
}

/// A copy of a list of strings.
pub fn copy_strings(v: &Vec<String>) -> (r: Vec<String>)
    ensures
        r@ == v@,
{
    let mut out: Vec<String> = Vec::new();
    let mut i: usize = 0;
    while i < v.len()
        invariant
            i <= v@.len(),
            out@ == v@.take(i as int),
        decreases v@.len() - i,
    {
        out.push(v[i].clone());
        assert(v@.take(i + 1) =~= v@.take(i as int).push(v@[i as int]));
        i = i + 1;
    }
    assert(v@.take(v@.len() as int) =~= v@);
    out
}

/// The contents of a validation rule.
pub struct RuleModel {
    pub rule_type: ValidationType,
    pub parameters: Map<Seq<char>, Json>,
    pub error_message: Seq<char>,
}

impl ValidationRule {
    /// The contents of this rule.
    pub open spec fn model(&self) -> RuleModel {
        RuleModel { rule_type: self.rule_type, parameters: json_map(self.parameters), error_message: self.error_message@ }
    }

    /// A copy of this rule.
    pub fn copy(&self) -> (r: ValidationRule)
        ensures
            r.model() == self.model(),
    {
        ValidationRule {
            rule_type: self.rule_type,
            parameters: copy_json_map(&self.parameters),
            error_message: self.error_message.clone(),
        }
    }
}

/// The contents of a schema extension.
pub struct ExtensionModel {
    pub id: Seq<char>,
    pub name: Seq<char>,
    pub description: Seq<char>,
    pub schema: Json,
    pub required: bool,
}

impl SchemaExtension {
    /// The contents of this extension.
    pub open spec fn model(&self) -> ExtensionModel {
        ExtensionModel {
            id: self.id@,
            name: self.name@,
            description: self.description@,
            schema: self.schema@,
            required: self.required,
        }
    }

    /// A copy of this extension.
    pub fn copy(&self) -> (r: SchemaExtension)
        ensures
            r.model() == self.model(),
    {
        SchemaExtension {
            id: self.id.clone(),
            name: self.name.clone(),
            description: self.description.clone(),
            schema: self.schema.deep_clone(),
            required: self.required,
        }
    }
}

/// The contents of a list of schema extensions.
pub open spec fn extension_models(v: Seq<SchemaExtension>) -> Seq<ExtensionModel> {
    Seq::new(v.len(), |i: int| v[i].model())
}

fn copy_extensions(v: &Vec<SchemaExtension>) -> (r: Vec<SchemaExtension>)
    ensures
        extension_models(r@) == extension_models(v@),
{
    let mut out: Vec<SchemaExtension> = Vec::new();
    let mut i: usize = 0;
    while i < v.len()
        invariant
            i <= v@.len(),
            out@.len() == i,
            forall|j: int| 0 <= j < i ==> (#[trigger] out@[j]).model() == v@[j].model(),
        decreases v@.len() - i,
    {
        out.push(v[i].copy());
        i = i + 1;
    }
    assert(extension_models(out@) =~= extension_models(v@));
    out
}

/// The contents of a map of validation rules, by attribute.
pub open spec fn rule_models(m: StrMap<ValidationRule>) -> Map<Seq<char>, RuleModel> {
    Map::new(|k: Seq<char>| m@.contains_key(k), |k: Seq<char>| m@[k].model())
}

/// The contents of a schema configuration.
pub struct SchemaModel {
    pub custom_attributes: Map<Seq<char>, Json>,
    pub disabled_attributes: Seq<String>,
    pub additional_required: Seq<String>,
    pub schema_extensions: Seq<ExtensionModel>,
    pub validation_rules: Map<Seq<char>, RuleModel>,
}

impl SchemaConfiguration {
    /// The contents of this schema configuration.
    pub open spec fn model(&self) -> SchemaModel {
        SchemaModel {
            custom_attributes: json_map(self.custom_attributes),
            disabled_attributes: self.disabled_attributes@,
            additional_required: self.additional_required@,
            schema_extensions: extension_models(self.schema_extensions@),
            validation_rules: rule_models(self.validation_rules),
        }
    }

    /// A copy of this schema configuration.
    pub fn copy(&self) -> (r: SchemaConfiguration)
        ensures
            r.model() == self.model(),
    {
        let rules = self.validation_rules.copy_with::<RuleModel, _>(rule_copy, Ghost(|v: ValidationRule| v.model()));
        assert(rule_models(rules) =~= rule_models(self.validation_rules));
        SchemaConfiguration {
            custom_attributes: copy_json_map(&self.custom_attributes),
            disabled_attributes: copy_strings(&self.disabled_attributes),
            additional_required: copy_strings(&self.additional_required),
            schema_extensions: copy_extensions(&self.schema_extensions),
            validation_rules: rules,
        }
    }
}

fn copy_opt_text(s: &Option<String>) -> (r: Option<String>)
    ensures
        r == *s,
{
    match s {
        Some(x) => Some(x.clone()),
        None => None,
    }
}

impl EncryptionConfiguration {
    /// A copy of these settings.
    pub fn copy(&self) -> (r: EncryptionConfiguration)
        ensures
            r == *self,
    {
        EncryptionConfiguration {
            encrypt_at_rest: self.encrypt_at_rest,
            encrypt_in_transit: self.encrypt_in_transit,
            encryption_algorithm: copy_opt_text(&self.encryption_algorithm),
            key_rotation_frequency_secs: self.key_rotation_frequency_secs,
            customer_managed_keys: self.customer_managed_keys,
        }
    }
}

impl ComplianceFramework {
    /// A copy of this framework.
    pub fn copy(&self) -> (r: ComplianceFramework)
        ensures
            r == *self,
    {
        match self {
            ComplianceFramework::GDPR => ComplianceFramework::GDPR,
            ComplianceFramework::HIPAA => ComplianceFramework::HIPAA,
            ComplianceFramework::SOX => ComplianceFramework::SOX,
            ComplianceFramework::PCIDSS => ComplianceFramework::PCIDSS,
            ComplianceFramework::ISO27001 => ComplianceFramework::ISO27001,
            ComplianceFramework::SOC2 => ComplianceFramework::SOC2,
            ComplianceFramework::Custom(name) => ComplianceFramework::Custom(name.clone()),
        }
    }
}

fn copy_frameworks(v: &Vec<ComplianceFramework>) -> (r: Vec<ComplianceFramework>)
    ensures
        r@ == v@,
{
    let mut out: Vec<ComplianceFramework> = Vec::new();
    let mut i: usize = 0;
    while i < v.len()
        invariant
            i <= v@.len(),
            out@ == v@.take(i as int),
        decreases v@.len() - i,
    {
        out.push(v[i].copy());
        assert(v@.take(i + 1) =~= v@.take(i as int).push(v@[i as int]));
        i = i + 1;
    }
    assert(v@.take(v@.len() as int) =~= v@);
    out
}

/// The contents of compliance settings.
pub struct ComplianceModel {
    pub audit_level: AuditLevel,
    pub encryption_requirements: EncryptionConfiguration,
    pub compliance_frameworks: Seq<ComplianceFramework>,
    pub data_residency: Option<String>,
    pub enable_pii_scrubbing: bool,
    pub data_retention_policies: Map<Seq<char>, u64>,
}

impl ComplianceConfiguration {
    /// The contents of these settings.
    pub open spec fn model(&self) -> ComplianceModel {
        ComplianceModel {
            audit_level: self.audit_level,
            encryption_requirements: self.encryption_requirements,
            compliance_frameworks: self.compliance_frameworks@,
            data_residency: self.data_residency,
            enable_pii_scrubbing: self.enable_pii_scrubbing,
            data_retention_policies: self.data_retention_policies@,
        }
    }

    /// A copy of these settings.
    pub fn copy(&self) -> (r: ComplianceConfiguration)
        ensures
            r.model() == self.model(),
    {
        let policies = self.data_retention_policies.copy_with::<u64, _>(seconds_copy, Ghost(|v: u64| v));
        assert(policies@ =~= self.data_retention_policies@);
        ComplianceConfiguration {
            audit_level: self.audit_level,
            encryption_requirements: self.encryption_requirements.copy(),
            compliance_frameworks: copy_frameworks(&self.compliance_frameworks),
            data_residency: copy_opt_text(&self.data_residency),
            enable_pii_scrubbing: self.enable_pii_scrubbing,
            data_retention_policies: policies,
        }
    }
}

impl BrandingConfiguration {
    /// A copy of this branding.
    pub fn copy(&self) -> (r: BrandingConfiguration)
        ensures
            r == *self,
    {
        BrandingConfiguration {
            display_name: self.display_name.clone(),
            logo_url: copy_opt_text(&self.logo_url),
            primary_color: copy_opt_text(&self.primary_color),
            secondary_color: copy_opt_text(&self.secondary_color),
            custom_css: copy_opt_text(&self.custom_css),
            favicon_url: copy_opt_text(&self.favicon_url),
            footer_text: copy_opt_text(&self.footer_text),
            support_contact: copy_opt_text(&self.support_contact),
        }
    }
}

/// The first id in `ids` that repeats an earlier one.
pub open spec fn first_duplicate(ids: Seq<Seq<char>>) -> Option<Seq<char>>
    decreases ids.len(),
{
    if ids.len() == 0 {
        None
    } else {
        match first_duplicate(ids.drop_last()) {
            Some(x) => Some(x),
            None => if ids.drop_last().contains(ids.last()) {
                Some(ids.last())
            } else {
                None
            },
        }
    }
}

/// The ids of schema extensions.
pub open spec fn extension_ids(exts: Seq<SchemaExtension>) -> Seq<Seq<char>> {
    Seq::new(exts.len(), |i: int| exts[i].id@)
}

/// Whether an optional limit is present and zero.
pub open spec fn is_zero_usize(v: Option<usize>) -> bool {
    v == Some(0usize)
}

/// Whether an optional rate is present and zero.
pub open spec fn is_zero_u32(v: Option<u32>) -> bool {
    v == Some(0u32)
}

/// The message of the first problem found in limits, rates and schema
/// extensions, if any.
pub open spec fn limits_problem(
    rl: ResourceLimits,
    rate: RateLimitConfiguration,
    exts: Seq<SchemaExtension>,
) -> Option<Seq<char>> {
    if is_zero_usize(rl.max_users) {
        Some("Maximum users must be greater than 0"@)
    } else if is_zero_usize(rl.max_groups) {
        Some("Maximum groups must be greater than 0"@)
    } else if is_zero_usize(rl.max_custom_resources) {
        Some("Maximum custom resources must be greater than 0"@)
    } else if is_zero_usize(rl.max_resource_size) {
        Some("Maximum resource size must be greater than 0"@)
    } else if is_zero_usize(rl.max_total_storage) {
        Some("Maximum total storage must be greater than 0"@)
    } else if is_zero_u32(rate.requests_per_minute) || is_zero_u32(rate.requests_per_hour)
        || is_zero_u32(rate.requests_per_day) {
        Some("Rate limits must be greater than 0"@)
    } else if is_zero_u32(rate.burst_allowance) {
        Some("Burst allowance must be greater than 0"@)
    } else {
        match first_duplicate(extension_ids(exts)) {
            Some(id) => Some("Duplicate schema extension ID: "@ + id),
            None => None,
        }
    }
}

/// The message of the first problem of a configuration, if any.
pub open spec fn configuration_problem(c: TenantConfiguration) -> Option<Seq<char>> {
    limits_problem(c.operational.resource_limits, c.operational.rate_limits, c.schema.schema_extensions@)
}

/// Whether a configuration error is a validation error with `message`.
pub open spec fn is_validation_error(e: ConfigurationError, message: Seq<char>) -> bool {
    e matches ConfigurationError::ValidationError { message: m } && m@ == message
}

/// Whether `feature` is enabled: its flag, or the flag `allow_<feature>`,
/// or enabled when neither is set.
pub open spec fn operation_allowed(flags: Map<Seq<char>, bool>, operation: Seq<char>) -> bool {
    if flags.contains_key(operation) {
        flags[operation]
    } else if flags.contains_key("allow_"@ + operation) {
        flags["allow_"@ + operation]
    } else {
        true
    }
}

/// The first id of `ids[..n]` equal to `id`, searched in order.
fn contains_id_before(exts: &Vec<SchemaExtension>, n: usize, id: &str) -> (r: bool)
    requires
        n <= exts@.len(),
    ensures
        r == extension_ids(exts@).take(n as int).contains(id@),
{
    let ghost ids = extension_ids(exts@).take(n as int);
    let mut i: usize = 0;
    while i < n
        invariant
            n <= exts@.len(),
            ids == extension_ids(exts@).take(n as int),
            i <= n,
            forall|j: int| 0 <= j < i ==> ids[j] != id@,
        decreases n - i,
    {
        if str_eq(exts[i].id.as_str(), id) {
            assert(ids[i as int] == id@);
            return true;
        }
        i = i + 1;
    }
    false
}

impl TenantConfiguration {
    /// A builder for the tenant's configuration.
    pub fn builder(tenant_id: String) -> (r: TenantConfigurationBuilder)
        ensures
            r.tenant_id == tenant_id,
            r.display_name is None,
            r.schema is None,
            r.operational is None,
            r.compliance is None,
            r.branding is None,
    {
        TenantConfigurationBuilder::new(tenant_id)
    }

    /// Checks that limits and rates are positive and that schema extension
    /// ids are distinct.
    pub fn validate(&self) -> (r: Result<(), ConfigurationError>)
        ensures
            match configuration_problem(*self) {
                Some(m) => r matches Err(e) && is_validation_error(e, m),
                None => r is Ok,
            },
    {
        let rl = &self.operational.resource_limits;
        if rl.max_users == Some(0usize) {
            return Err(ConfigurationError::ValidationError {
                message: "Maximum users must be greater than 0".to_string(),
            });
        }
        if rl.max_groups == Some(0usize) {
            return Err(ConfigurationError::ValidationError {
                message: "Maximum groups must be greater than 0".to_string(),
            });
        }
        if rl.max_custom_resources == Some(0usize) {
            return Err(ConfigurationError::ValidationError {
                message: "Maximum custom resources must be greater than 0".to_string(),
            });
        }
        if rl.max_resource_size == Some(0usize) {
            return Err(ConfigurationError::ValidationError {
                message: "Maximum resource size must be greater than 0".to_string(),
            });
        }
        if rl.max_total_storage == Some(0usize) {
            return Err(ConfigurationError::ValidationError {
                message: "Maximum total storage must be greater than 0".to_string(),
            });
        }
        let rate = &self.operational.rate_limits;
        if rate.requests_per_minute == Some(0u32) || rate.requests_per_hour == Some(0u32)
            || rate.requests_per_day == Some(0u32) {
            return Err(ConfigurationError::ValidationError {
                message: "Rate limits must be greater than 0".to_string(),
            });
        }
        if rate.burst_allowance == Some(0u32) {
            return Err(ConfigurationError::ValidationError {
                message: "Burst allowance must be greater than 0".to_string(),
            });
        }
        let exts = &self.schema.schema_extensions;
        let ghost ids = extension_ids(exts@);
        let mut i: usize = 0;
        assert(ids.take(0) =~= Seq::<Seq<char>>::empty());
        assert(configuration_problem(*self) == match first_duplicate(ids) {
            Some(id) => Some("Duplicate schema extension ID: "@ + id),
            None => None::<Seq<char>>,
        });
        while i < exts.len()
            invariant
                ids == extension_ids(exts@),
                exts@ == self.schema.schema_extensions@,
                configuration_problem(*self) == match first_duplicate(ids) {
                    Some(id) => Some("Duplicate schema extension ID: "@ + id),
                    None => None::<Seq<char>>,
                },
                i <= exts@.len(),
                first_duplicate(ids.take(i as int)) is None,
            decreases exts@.len() - i,
        {
            assert(ids.take(i + 1).drop_last() =~= ids.take(i as int));
            assert(ids.take(i + 1).last() == exts@[i as int].id@);
            if contains_id_before(exts, i, exts[i].id.as_str()) {
                proof {
                    lemma_first_duplicate_prefix(ids, i as int + 1);
                }
                return Err(ConfigurationError::ValidationError {
                    message: concat("Duplicate schema extension ID: ", exts[i].id.as_str()),
                });
            }
            i = i + 1;
        }
        assert(ids.take(exts@.len() as int) =~= ids);
        Ok(())
    }

    /// Marks the configuration as modified at instant `now`.
    pub fn touch_at(&mut self, now: i64)
        requires
            old(self).version < u64::MAX,
        ensures
            final(self).last_modified == now,
            final(self).version == old(self).version + 1,
            final(self).tenant_id == old(self).tenant_id,
            final(self).display_name == old(self).display_name,
            final(self).created_at == old(self).created_at,
    {
        self.last_modified = now;
        self.version = self.version + 1;
    }

    /// Marks the configuration as modified now.
    pub fn touch(&mut self)
        requires
            old(self).version < u64::MAX,
        ensures
            final(self).version == old(self).version + 1,
            final(self).tenant_id == old(self).tenant_id,
            final(self).display_name == old(self).display_name,
            final(self).created_at == old(self).created_at,
    {
        let now = now_micros();
        self.touch_at(now);
    }

    /// Whether the named operation is allowed by the feature flags.
    pub fn allows_operation(&self, operation: &str) -> (r: bool)
        ensures
            r == operation_allowed(self.operational.feature_flags@, operation@),
    {
        match self.operational.feature_flags.get(operation) {
            Some(enabled) => *enabled,
            None => {
                let key = concat("allow_", operation);
                match self.operational.feature_flags.get(key.as_str()) {
                    Some(enabled) => *enabled,
                    None => true,
                }
            },
        }
    }
}

/// A repeated id in a prefix stays the first repeated id of the whole sequence.
pub proof fn lemma_first_duplicate_prefix(ids: Seq<Seq<char>>, k: int)
    requires
        0 < k <= ids.len(),
        first_duplicate(ids.take(k - 1)) is None,
        ids.take(k - 1).contains(ids[k - 1]),
    ensures
        first_duplicate(ids) == Some(ids[k - 1]),
    decreases ids.len() - k,
{
    if k < ids.len() {
        assert(ids.take(ids.len() - 1).take(k - 1) =~= ids.take(k - 1));
        assert(ids.take(ids.len() - 1)[k - 1] == ids[k - 1]);
        lemma_first_duplicate_prefix(ids.take(ids.len() - 1), k);
        assert(ids.drop_last() =~= ids.take(ids.len() - 1));
    } else {
        assert(ids.take(k - 1) =~= ids.drop_last());
    }
}

/// Whether `v` holds a string equal to `s`.
pub open spec fn strings_contain(v: Seq<String>, s: Seq<char>) -> bool {
    strings_view(v).contains(s)
}

pub fn vec_contains(v: &Vec<String>, s: &str) -> (r: bool)
    ensures
        r == strings_contain(v@, s@),
{
    let mut i: usize = 0;
    while i < v.len()
        invariant
            i <= v@.len(),
            forall|j: int| 0 <= j < i ==> v@[j]@ != s@,
        decreases v@.len() - i,
    {
        if str_eq(v[i].as_str(), s) {
            assert(strings_view(v@)[i as int] == s@);
            return true;
        }
        i = i + 1;
    }
    false
}

impl SchemaConfiguration {
    /// An empty schema configuration.
    pub open spec fn is_empty_config(&self) -> bool {
        &&& self.custom_attributes@ == Map::<Seq<char>, JsonValue>::empty()
        &&& self.disabled_attributes@.len() == 0
        &&& self.additional_required@.len() == 0
        &&& self.schema_extensions@.len() == 0
        &&& self.validation_rules@ == Map::<Seq<char>, ValidationRule>::empty()
    }

    /// A builder for a schema configuration.
    pub fn builder() -> (r: SchemaConfigurationBuilder)
        ensures
            r.custom_attributes@ == Map::<Seq<char>, JsonValue>::empty(),
            r.disabled_attributes@.len() == 0,
            r.additional_required@.len() == 0,
            r.schema_extensions@.len() == 0,
            r.validation_rules@ == Map::<Seq<char>, ValidationRule>::empty(),
    {
        SchemaConfigurationBuilder::new()
    }

    /// Whether `attribute` is disabled.
    pub fn is_attribute_disabled(&self, attribute: &str) -> (r: bool)
        ensures
            r == strings_contain(self.disabled_attributes@, attribute@),
    {
        vec_contains(&self.disabled_attributes, attribute)
    }

    /// Whether `attribute` is additionally required.
    pub fn is_attribute_required(&self, attribute: &str) -> (r: bool)
        ensures
            r == strings_contain(self.additional_required@, attribute@),
    {
        vec_contains(&self.additional_required, attribute)
    }

    /// The validation rule of `attribute`, if any.
    pub fn get_validation_rule(&self, attribute: &str) -> (r: Option<&ValidationRule>)
        ensures
            match r {
                Some(v) => self.validation_rules@.contains_key(attribute@) && self.validation_rules@[attribute@] == *v,
                None => !self.validation_rules@.contains_key(attribute@),
            },
    {
        self.validation_rules.get(attribute)
    }
}

impl Default for SchemaConfiguration {
    fn default() -> (r: SchemaConfiguration)
        ensures
            r.is_empty_config(),
    {
        SchemaConfiguration {
            custom_attributes: StrMap::new(),
            disabled_attributes: Vec::new(),
            additional_required: Vec::new(),
            schema_extensions: Vec::new(),
            validation_rules: StrMap::new(),
        }
    }
}

impl OperationalConfiguration {
    /// A builder with no settings.
    pub fn builder() -> (r: OperationalConfigurationBuilder)
        ensures
            r.rate_limits is None,
            r.resource_limits is None,
            r.feature_flags@ == Map::<Seq<char>, bool>::empty(),
            r.session_settings is None,
            r.retention_settings is None,
            r.performance_settings is None,
    {
        OperationalConfigurationBuilder::new()
    }

    /// Whether `feature` is enabled (unset features are disabled).
    pub fn is_feature_enabled(&self, feature: &str) -> (r: bool)
        ensures
            r == (self.feature_flags@.contains_key(feature@) && self.feature_flags@[feature@]),
    {
        match self.feature_flags.get(feature) {
            Some(b) => *b,
            None => false,
        }
    }

    /// The request limit for a period.
    pub fn get_rate_limit(&self, period: RateLimitPeriod) -> (r: Option<u32>)
        ensures
            r == match period {
                RateLimitPeriod::Minute => self.rate_limits.requests_per_minute,
                RateLimitPeriod::Hour => self.rate_limits.requests_per_hour,
                RateLimitPeriod::Day => self.rate_limits.requests_per_day,
            },
    {
        match period {
            RateLimitPeriod::Minute => self.rate_limits.requests_per_minute,
            RateLimitPeriod::Hour => self.rate_limits.requests_per_hour,
            RateLimitPeriod::Day => self.rate_limits.requests_per_day,
        }
    }
}

/// The default rate limits.
pub open spec fn default_rate_limits() -> RateLimitConfiguration {
    RateLimitConfiguration {
        requests_per_minute: Some(1000),
        requests_per_hour: Some(10000),
        requests_per_day: Some(100000),
        burst_allowance: Some(100),
        window_duration_secs: 60,
    }
}

/// The default resource limits.
pub open spec fn default_resource_limits() -> ResourceLimits {
    ResourceLimits {
        max_users: Some(10000),
        max_groups: Some(1000),
        max_custom_resources: Some(1000),
        max_resource_size: Some(1048576),
        max_total_storage: Some(104857600),
    }
}

/// The default session settings.
pub open spec fn default_session() -> SessionConfiguration {
    SessionConfiguration {
        session_timeout_secs: 3600,
        token_expiration_secs: 86400,
        allow_concurrent_sessions: true,
        max_active_sessions: Some(10),
        require_mfa: false,
    }
}

/// The default retention settings.
pub open spec fn default_retention() -> RetentionConfiguration {
    RetentionConfiguration {
        audit_log_retention_secs: 31536000,
        deleted_resource_retention_secs: 2592000,
        enable_automatic_backup: true,
        backup_frequency_secs: 86400,
        backup_retention_secs: 7776000,
    }
}

/// The default performance settings.
pub open spec fn default_performance() -> PerformanceConfiguration {
    PerformanceConfiguration {
        enable_caching: true,
        cache_ttl_secs: 300,
        max_cache_size: Some(100),
        enable_query_optimization: true,
        connection_pool_size: Some(10),
    }
}

impl Default for RateLimitConfiguration {
    fn default() -> (r: Self)
        ensures
            r == default_rate_limits(),
    {
        RateLimitConfiguration {
            requests_per_minute: Some(1000),
            requests_per_hour: Some(10000),
            requests_per_day: Some(100000),
            burst_allowance: Some(100),
            window_duration_secs: 60,
        }
    }
}

impl Default for ResourceLimits {
    fn default() -> (r: Self)
        ensures
            r == default_resource_limits(),
    {
        ResourceLimits {
            max_users: Some(10000),
            max_groups: Some(1000),
            max_custom_resources: Some(1000),
            max_resource_size: Some(1048576),
            max_total_storage: Some(104857600),
        }
    }
}

impl Default for SessionConfiguration {
    fn default() -> (r: Self)
        ensures
            r == default_session(),
    {
        SessionConfiguration {
            session_timeout_secs: 3600,
            token_expiration_secs: 86400,
            allow_concurrent_sessions: true,
            max_active_sessions: Some(10),
            require_mfa: false,
        }
    }
}

impl Default for RetentionConfiguration {
    fn default() -> (r: Self)
        ensures
            r == default_retention(),
    {
        RetentionConfiguration {
            audit_log_retention_secs: 31536000,
            deleted_resource_retention_secs: 2592000,
            enable_automatic_backup: true,
            backup_frequency_secs: 86400,
            backup_retention_secs: 7776000,
        }
    }
}

impl Default for PerformanceConfiguration {
    fn default() -> (r: Self)
        ensures
            r == default_performance(),
    {
        PerformanceConfiguration {
            enable_caching: true,
            cache_ttl_secs: 300,
            max_cache_size: Some(100),
            enable_query_optimization: true,
            connection_pool_size: Some(10),
        }
    }
}

/// Whether operational settings are the defaults: every section at its
/// default and no feature flag.
pub open spec fn default_operational(r: OperationalConfiguration) -> bool {
    &&& r.rate_limits == default_rate_limits()
    &&& r.resource_limits == default_resource_limits()
    &&& r.feature_flags@ == Map::<Seq<char>, bool>::empty()
    &&& r.session_settings == default_session()
    &&& r.retention_settings == default_retention()
    &&& r.performance_settings == default_performance()
}

/// The operational settings a builder builds: each section that was set,
/// the default of each that was not, and the feature flags enabled or
/// disabled on it.
pub open spec fn built_operational(b: OperationalConfigurationBuilder, r: OperationalConfiguration) -> bool {
    &&& r.rate_limits == match b.rate_limits { Some(x) => x, None => default_rate_limits() }
    &&& r.resource_limits == match b.resource_limits { Some(x) => x, None => default_resource_limits() }
    &&& r.feature_flags@ == b.feature_flags@
    &&& r.session_settings == match b.session_settings { Some(x) => x, None => default_session() }
    &&& r.retention_settings == match b.retention_settings { Some(x) => x, None => default_retention() }
    &&& r.performance_settings == match b.performance_settings { Some(x) => x, None => default_performance() }
}

/// A fresh builder builds the default operational settings, and a section
/// set on a builder is in what it builds as it was set.
pub proof fn law_builder_defaults_and_sections(
    b: OperationalConfigurationBuilder,
    r: OperationalConfiguration,
)
    requires
        built_operational(b, r),
    ensures
        (b.rate_limits is None && b.resource_limits is None && b.feature_flags@ == Map::<Seq<char>, bool>::empty()
            && b.session_settings is None && b.retention_settings is None && b.performance_settings is None)
            ==> default_operational(r),
        b.rate_limits matches Some(x) ==> r.rate_limits == x,
        b.resource_limits matches Some(x) ==> r.resource_limits == x,
        b.session_settings matches Some(x) ==> r.session_settings == x,
        b.retention_settings matches Some(x) ==> r.retention_settings == x,
        b.performance_settings matches Some(x) ==> r.performance_settings == x,
{
}

impl Default for OperationalConfiguration {
    fn default() -> (r: Self)
        ensures
            default_operational(r),
    {
        OperationalConfiguration {
            rate_limits: RateLimitConfiguration::default(),
            resource_limits: ResourceLimits::default(),
            feature_flags: StrMap::new(),
            session_settings: SessionConfiguration::default(),
            retention_settings: RetentionConfiguration::default(),
            performance_settings: PerformanceConfiguration::default(),
        }
    }
}

impl Default for EncryptionConfiguration {
    fn default() -> (r: Self)
        ensures
            r.encrypt_at_rest,
            r.encrypt_in_transit,
            r.encryption_algorithm matches Some(a) && a@ == "AES-256-GCM"@,
            r.key_rotation_frequency_secs == Some(7776000u64),
            !r.customer_managed_keys,
    {
        EncryptionConfiguration {
            encrypt_at_rest: true,
            encrypt_in_transit: true,
            encryption_algorithm: Some("AES-256-GCM".to_string()),
            key_rotation_frequency_secs: Some(7776000),
            customer_managed_keys: false,
        }
    }
}

impl Default for ComplianceConfiguration {
    fn default() -> (r: Self)
        ensures
            r.audit_level == AuditLevel::Basic,
            r.encryption_requirements.encrypt_at_rest,
            r.encryption_requirements.encrypt_in_transit,
            r.compliance_frameworks@.len() == 0,
            r.data_residency is None,
            !r.enable_pii_scrubbing,
            r.data_retention_policies@ == Map::<Seq<char>, u64>::empty(),
    {
        ComplianceConfiguration {
            audit_level: AuditLevel::Basic,
            encryption_requirements: EncryptionConfiguration::default(),
            compliance_frameworks: Vec::new(),
            data_residency: None,
            enable_pii_scrubbing: false,
            data_retention_policies: StrMap::new(),
        }
    }
}

impl Default for BrandingConfiguration {
    fn default() -> (r: Self)
        ensures
            r.display_name@ == "Default Tenant"@,
            r.logo_url is None,
            r.primary_color matches Some(c) && c@ == "#007bff"@,
            r.secondary_color matches Some(c) && c@ == "#6c757d"@,
            r.custom_css is None,
            r.favicon_url is None,
            r.footer_text is None,
            r.support_contact is None,
    {
        BrandingConfiguration {
            display_name: "Default Tenant".to_string(),
            logo_url: None,
            primary_color: Some("#007bff".to_string()),
            secondary_color: Some("#6c757d".to_string()),
            custom_css: None,
            favicon_url: None,
            footer_text: None,
            support_contact: None,
        }
    }
}

/// Builder of a tenant configuration.
pub struct TenantConfigurationBuilder {
    pub tenant_id: String,
    pub display_name: Option<String>,
    pub schema: Option<SchemaConfiguration>,
    pub operational: Option<OperationalConfiguration>,
    pub compliance: Option<ComplianceConfiguration>,
    pub branding: Option<BrandingConfiguration>,
}

impl TenantConfigurationBuilder {
    /// A builder with nothing set.
    pub fn new(tenant_id: String) -> (r: TenantConfigurationBuilder)
        ensures
            r.tenant_id == tenant_id,
            r.display_name is None,
            r.schema is None,
            r.operational is None,
            r.compliance is None,
            r.branding is None,
    {
        TenantConfigurationBuilder {
            tenant_id,
            display_name: None,
            schema: None,
            operational: None,
            compliance: None,
            branding: None,
        }
    }

    /// Sets the display name.
    pub fn with_display_name(self, display_name: String) -> (r: TenantConfigurationBuilder)
        ensures
            r == (TenantConfigurationBuilder { display_name: Some(display_name), ..self }),
    {
        TenantConfigurationBuilder { display_name: Some(display_name), ..self }
    }

    /// Sets the schema configuration.
    pub fn with_schema_configuration(self, schema: SchemaConfiguration) -> (r: TenantConfigurationBuilder)
        ensures
            r == (TenantConfigurationBuilder { schema: Some(schema), ..self }),
    {
        TenantConfigurationBuilder { schema: Some(schema), ..self }
    }

    /// Sets the operational configuration.
    pub fn with_operational_configuration(self, operational: OperationalConfiguration) -> (r: TenantConfigurationBuilder)
        ensures
            r == (TenantConfigurationBuilder { operational: Some(operational), ..self }),
    {
        TenantConfigurationBuilder { operational: Some(operational), ..self }
    }

    /// Sets the compliance configuration.
    pub fn with_compliance_configuration(self, compliance: ComplianceConfiguration) -> (r: TenantConfigurationBuilder)
        ensures
            r == (TenantConfigurationBuilder { compliance: Some(compliance), ..self }),
    {
        TenantConfigurationBuilder { compliance: Some(compliance), ..self }
    }

    /// Sets the branding configuration.
    pub fn with_branding_configuration(self, branding: BrandingConfiguration) -> (r: TenantConfigurationBuilder)
        ensures
            r == (TenantConfigurationBuilder { branding: Some(branding), ..self }),
    {
        TenantConfigurationBuilder { branding: Some(branding), ..self }
    }

    /// The resource limits the configuration will have.
    pub open spec fn effective_limits(self) -> ResourceLimits {
        match self.operational {
            Some(o) => o.resource_limits,
            None => default_resource_limits(),
        }
    }

    /// The rate limits the configuration will have.
    pub open spec fn effective_rates(self) -> RateLimitConfiguration {
        match self.operational {
            Some(o) => o.rate_limits,
            None => default_rate_limits(),
        }
    }

    /// The schema extensions the configuration will have.
    pub open spec fn effective_extensions(self) -> Seq<SchemaExtension> {
        match self.schema {
            Some(s) => s.schema_extensions@,
            None => Seq::empty(),
        }
    }

    /// Builds the configuration at instant `now`, with version 1 and
    /// defaults for what was not set, and validates it.
    pub fn build_at(self, now: i64) -> (r: Result<TenantConfiguration, ConfigurationError>)
        ensures
            match limits_problem(self.effective_limits(), self.effective_rates(), self.effective_extensions()) {
                Some(m) => r matches Err(e) && is_validation_error(e, m),
                None => r matches Ok(c) && {
                    &&& c.tenant_id == self.tenant_id
                    &&& c.display_name@ == match self.display_name {
                        Some(d) => d@,
                        None => self.tenant_id@,
                    }
                    &&& c.created_at == now && c.last_modified == now
                    &&& c.version == 1
                    &&& (self.schema matches Some(s) ==> c.schema == s)
                    &&& (self.operational matches Some(o) ==> c.operational == o)
                    &&& (self.compliance matches Some(x) ==> c.compliance == x)
                    &&& (self.branding matches Some(b) ==> c.branding == b)
                    &&& (self.schema is None ==> c.schema.is_empty_config())
                    &&& c.operational.resource_limits == self.effective_limits()
                    &&& c.operational.rate_limits == self.effective_rates()
                    &&& configuration_problem(c) is None
                },
            },
    {
        let display_name = match self.display_name {
            Some(d) => d,
            None => self.tenant_id.clone(),
        };
        let config = TenantConfiguration {
            tenant_id: self.tenant_id,
            display_name,
            created_at: now,
            last_modified: now,
            version: 1,
            schema: match self.schema {
                Some(s) => s,
                None => SchemaConfiguration::default(),
            },
            operational: match self.operational {
                Some(o) => o,
                None => OperationalConfiguration::default(),
            },
            compliance: match self.compliance {
                Some(x) => x,
                None => ComplianceConfiguration::default(),
            },
            branding: match self.branding {
                Some(b) => b,
                None => BrandingConfiguration::default(),
            },
        };
        match config.validate() {
            Ok(()) => Ok(config),
            Err(e) => Err(e),
        }
    }

    /// Builds the configuration now, with version 1 and defaults for what
    /// was not set, and validates it.
    pub fn build(self) -> (r: Result<TenantConfiguration, ConfigurationError>)
        ensures
            match limits_problem(self.effective_limits(), self.effective_rates(), self.effective_extensions()) {
                Some(m) => r matches Err(e) && is_validation_error(e, m),
                None => r matches Ok(c) && {
                    &&& c.tenant_id == self.tenant_id
                    &&& c.display_name@ == match self.display_name {
                        Some(d) => d@,
                        None => self.tenant_id@,
                    }
                    &&& c.created_at == c.last_modified
                    &&& c.version == 1
                    &&& (self.schema matches Some(s) ==> c.schema == s)
                    &&& (self.operational matches Some(o) ==> c.operational == o)
                    &&& c.operational.resource_limits == self.effective_limits()
                    &&& c.operational.rate_limits == self.effective_rates()
                    &&& configuration_problem(c) is None
                },
            },
    {
        let now = now_micros();
        self.build_at(now)
    }
}

/// Builder of a schema configuration.
pub struct SchemaConfigurationBuilder {
    pub custom_attributes: StrMap<JsonValue>,
    pub disabled_attributes: Vec<String>,
    pub additional_required: Vec<String>,
    pub schema_extensions: Vec<SchemaExtension>,
    pub validation_rules: StrMap<ValidationRule>,
}

impl SchemaConfigurationBuilder {
    /// A builder with nothing set.
    pub fn new() -> (r: SchemaConfigurationBuilder)
        ensures
            r.custom_attributes@ == Map::<Seq<char>, JsonValue>::empty(),
            r.disabled_attributes@.len() == 0,
            r.additional_required@.len() == 0,
            r.schema_extensions@.len() == 0,
            r.validation_rules@ == Map::<Seq<char>, ValidationRule>::empty(),
    {
        SchemaConfigurationBuilder {
            custom_attributes: StrMap::new(),
            disabled_attributes: Vec::new(),
            additional_required: Vec::new(),
            schema_extensions: Vec::new(),
            validation_rules: StrMap::new(),
        }
    }

    /// Adds a custom attribute definition.
    pub fn add_custom_attribute(self, name: String, definition: JsonValue) -> (r: SchemaConfigurationBuilder)
        ensures
            r.custom_attributes@ == self.custom_attributes@.insert(name@, definition),
            r.disabled_attributes == self.disabled_attributes,
            r.additional_required == self.additional_required,
            r.schema_extensions == self.schema_extensions,
            r.validation_rules == self.validation_rules,
    {
        let mut b = self;
        b.custom_attributes.insert(name, definition);
        b
    }

    /// Disables a standard attribute.
    pub fn disable_standard_attribute(self, attribute: String) -> (r: SchemaConfigurationBuilder)
        ensures
            r.disabled_attributes@ == self.disabled_attributes@.push(attribute),
            r.custom_attributes == self.custom_attributes,
            r.additional_required == self.additional_required,
            r.schema_extensions == self.schema_extensions,
            r.validation_rules == self.validation_rules,
    {
        let mut b = self;
        b.disabled_attributes.push(attribute);
        b
    }

    /// Requires an attribute.
    pub fn require_attribute(self, attribute: String) -> (r: SchemaConfigurationBuilder)
        ensures
            r.additional_required@ == self.additional_required@.push(attribute),
            r.custom_attributes == self.custom_attributes,
            r.disabled_attributes == self.disabled_attributes,
            r.schema_extensions == self.schema_extensions,
            r.validation_rules == self.validation_rules,
    {
        let mut b = self;
        b.additional_required.push(attribute);
        b
    }

    /// Adds a schema extension.
    pub fn add_schema_extension(self, extension: SchemaExtension) -> (r: SchemaConfigurationBuilder)
        ensures
            r.schema_extensions@ == self.schema_extensions@.push(extension),
            r.custom_attributes == self.custom_attributes,
            r.disabled_attributes == self.disabled_attributes,
            r.additional_required == self.additional_required,
            r.validation_rules == self.validation_rules,
    {
        let mut b = self;
        b.schema_extensions.push(extension);
        b
    }

    /// Adds a validation rule for an attribute.
    pub fn add_validation_rule(self, attribute: String, rule: ValidationRule) -> (r: SchemaConfigurationBuilder)
        ensures
            r.validation_rules@ == self.validation_rules@.insert(attribute@, rule),
            r.custom_attributes == self.custom_attributes,
            r.disabled_attributes == self.disabled_attributes,
            r.additional_required == self.additional_required,
            r.schema_extensions == self.schema_extensions,
    {
        let mut b = self;
        b.validation_rules.insert(attribute, rule);
        b
    }

    /// The schema configuration.
    pub fn build(self) -> (r: SchemaConfiguration)
        ensures
            r.custom_attributes == self.custom_attributes,
            r.disabled_attributes == self.disabled_attributes,
            r.additional_required == self.additional_required,
            r.schema_extensions == self.schema_extensions,
            r.validation_rules == self.validation_rules,
    {
        SchemaConfiguration {
            custom_attributes: self.custom_attributes,
            disabled_attributes: self.disabled_attributes,
            additional_required: self.additional_required,
            schema_extensions: self.schema_extensions,
            validation_rules: self.validation_rules,
        }
    }
}

/// Builder of operational settings.
pub struct OperationalConfigurationBuilder {
    pub rate_limits: Option<RateLimitConfiguration>,
    pub resource_limits: Option<ResourceLimits>,
    pub feature_flags: StrMap<bool>,
    pub session_settings: Option<SessionConfiguration>,
    pub retention_settings: Option<RetentionConfiguration>,
    pub performance_settings: Option<PerformanceConfiguration>,
}

impl OperationalConfigurationBuilder {
    /// A builder with nothing set.
    pub fn new() -> (r: OperationalConfigurationBuilder)
        ensures
            r.rate_limits is None,
            r.resource_limits is None,
            r.feature_flags@ == Map::<Seq<char>, bool>::empty(),
            r.session_settings is None,
            r.retention_settings is None,
            r.performance_settings is None,
    {
        OperationalConfigurationBuilder {
            rate_limits: None,
            resource_limits: None,
            feature_flags: StrMap::new(),
            session_settings: None,
            retention_settings: None,
            performance_settings: None,
        }
    }

    /// Sets the rate limits.
    pub fn with_rate_limits(self, rate_limits: RateLimitConfiguration) -> (r: OperationalConfigurationBuilder)
        ensures
            r == (OperationalConfigurationBuilder { rate_limits: Some(rate_limits), ..self }),
    {
        OperationalConfigurationBuilder { rate_limits: Some(rate_limits), ..self }
    }

    /// Sets the resource limits.
    pub fn with_resource_limits(self, resource_limits: ResourceLimits) -> (r: OperationalConfigurationBuilder)
        ensures
            r == (OperationalConfigurationBuilder { resource_limits: Some(resource_limits), ..self }),
    {
        OperationalConfigurationBuilder { resource_limits: Some(resource_limits), ..self }
    }

    /// Enables a feature.
    pub fn enable_feature(self, feature: String) -> (r: OperationalConfigurationBuilder)
        ensures
            r.feature_flags@ == self.feature_flags@.insert(feature@, true),
            r.rate_limits == self.rate_limits,
            r.resource_limits == self.resource_limits,
            r.session_settings == self.session_settings,
            r.retention_settings == self.retention_settings,
            r.performance_settings == self.performance_settings,
    {
        let mut b = self;
        b.feature_flags.insert(feature, true);
        b
    }

    /// Disables a feature.
    pub fn disable_feature(self, feature: String) -> (r: OperationalConfigurationBuilder)
        ensures
            r.feature_flags@ == self.feature_flags@.insert(feature@, false),
            r.rate_limits == self.rate_limits,
            r.resource_limits == self.resource_limits,
            r.session_settings == self.session_settings,
            r.retention_settings == self.retention_settings,
            r.performance_settings == self.performance_settings,
    {
        let mut b = self;
        b.feature_flags.insert(feature, false);
        b
    }

    /// Sets the session settings.
    pub fn with_session_settings(self, session_settings: SessionConfiguration) -> (r: OperationalConfigurationBuilder)
        ensures
            r == (OperationalConfigurationBuilder { session_settings: Some(session_settings), ..self }),
    {
        OperationalConfigurationBuilder { session_settings: Some(session_settings), ..self }
    }

    /// Sets the retention settings.
    pub fn with_retention_settings(self, retention_settings: RetentionConfiguration) -> (r: OperationalConfigurationBuilder)
        ensures
            r == (OperationalConfigurationBuilder { retention_settings: Some(retention_settings), ..self }),
    {
        OperationalConfigurationBuilder { retention_settings: Some(retention_settings), ..self }
    }

    /// Sets the performance settings.
    pub fn with_performance_settings(self, performance_settings: PerformanceConfiguration) -> (r: OperationalConfigurationBuilder)
        ensures
            r == (OperationalConfigurationBuilder { performance_settings: Some(performance_settings), ..self }),
    {
        OperationalConfigurationBuilder { performance_settings: Some(performance_settings), ..self }
    }

    /// The operational settings, with defaults for what was not set.
    pub fn build(self) -> (r: OperationalConfiguration)
        ensures
            built_operational(self, r),
            r.feature_flags == self.feature_flags,
    {
        OperationalConfiguration {
            rate_limits: match self.rate_limits {
                Some(x) => x,
                None => RateLimitConfiguration::default(),
            },
            resource_limits: match self.resource_limits {
                Some(x) => x,
                None => ResourceLimits::default(),
            },
            feature_flags: self.feature_flags,
            session_settings: match self.session_settings {
                Some(x) => x,
                None => SessionConfiguration::default(),
            },
            retention_settings: match self.retention_settings {
                Some(x) => x,
                None => RetentionConfiguration::default(),
            },
            performance_settings: match self.performance_settings {
                Some(x) => x,
                None => PerformanceConfiguration::default(),
            },
        }
    }
}

/// The whole contents of a configuration as mathematical values; two
/// configurations with the same summary hold the same settings.
pub struct ConfigSummary {
    pub tenant_id: Seq<char>,
    pub display_name: Seq<char>,
    pub created_at: i64,
    pub last_modified: i64,
    pub version: u64,
    pub rate_limits: RateLimitConfiguration,
    pub resource_limits: ResourceLimits,
    pub feature_flags: Map<Seq<char>, bool>,
    pub session_settings: SessionConfiguration,
    pub retention_settings: RetentionConfiguration,
    pub performance_settings: PerformanceConfiguration,
    pub schema: SchemaModel,
    pub compliance: ComplianceModel,
    pub branding: BrandingConfiguration,
}

impl TenantConfiguration {
    /// The whole contents of this configuration.
    pub open spec fn summary(&self) -> ConfigSummary {
        ConfigSummary {
            tenant_id: self.tenant_id@,
            display_name: self.display_name@,
            created_at: self.created_at,
            last_modified: self.last_modified,
            version: self.version,
            rate_limits: self.operational.rate_limits,
            resource_limits: self.operational.resource_limits,
            feature_flags: self.operational.feature_flags@,
            session_settings: self.operational.session_settings,
            retention_settings: self.operational.retention_settings,
            performance_settings: self.operational.performance_settings,
            schema: self.schema.model(),
            compliance: self.compliance.model(),
            branding: self.branding,
        }
    }

    /// A copy of this configuration.
    pub fn copy(&self) -> (r: TenantConfiguration)
        ensures
            r.summary() == self.summary(),
    {
        TenantConfiguration {
            tenant_id: self.tenant_id.clone(),
            display_name: self.display_name.clone(),
            created_at: self.created_at,
            last_modified: self.last_modified,
            version: self.version,
            schema: self.schema.copy(),
            operational: OperationalConfiguration {
                rate_limits: self.operational.rate_limits,
                resource_limits: self.operational.resource_limits,
                feature_flags: self.operational.feature_flags.copy(),
                session_settings: self.operational.session_settings,
                retention_settings: self.operational.retention_settings,
                performance_settings: self.operational.performance_settings,
            },
            compliance: self.compliance.copy(),
            branding: self.branding.copy(),
        }
    }
}

/// Mathematical model of a configuration error.
pub enum ConfigErrorModel {
    ValidationError(Seq<char>),
    NotFound(Seq<char>),
    Conflict(Seq<char>),
    SerializationError(Seq<char>),
    VersionMismatch(u64, u64),
}

impl ConfigurationError {
    /// The model of this error.
    pub open spec fn view(&self) -> ConfigErrorModel {
        match self {
            ConfigurationError::ValidationError { message } => ConfigErrorModel::ValidationError(message@),
            ConfigurationError::NotFound { tenant_id } => ConfigErrorModel::NotFound(tenant_id@),
            ConfigurationError::Conflict { message } => ConfigErrorModel::Conflict(message@),
            ConfigurationError::SerializationError { message } => ConfigErrorModel::SerializationError(message@),
            ConfigurationError::VersionMismatch { expected, actual } => ConfigErrorModel::VersionMismatch(*expected, *actual),
        }
    }
}

} // verus!
