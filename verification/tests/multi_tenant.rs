use scim_server::multi_tenant::adapter::{ContextConverter, ToSingleTenant};
use scim_server::multi_tenant::config_provider::SortOrder;
use scim_server::multi_tenant::configuration::{OperationalConfiguration, RateLimitPeriod};
use scim_server::multi_tenant::provider::TenantValidator;
use scim_server::multi_tenant::scim_config::{ScimAuditConfig, ScimEndpointConfig, ScimRateLimits};
use scim_server::providers::standard::StandardResourceProvider;
use scim_server::resource::{
    EnhancedRequestContext, IsolationLevel, RequestContext, TenantContext, TenantPermissions,
};

struct MockValidator;

#[test]
fn test_context_converter() {
    let context = ContextConverter::single_tenant_context(Some("req-123".to_string()));
    assert_eq!(context.request_id, "req-123");
    assert!(context.tenant_context.is_none());

    let context = ContextConverter::multi_tenant_context(
        "tenant-1".to_string(),
        Some("client-1".to_string()),
        Some("req-456".to_string()),
    );
    assert_eq!(context.request_id, "req-456");
    assert!(context.tenant_context.is_some());
    assert_eq!(context.tenant_id().map(|s| s.as_str()), Some("tenant-1"));
}

#[test]
fn test_to_single_tenant_trait() {
    let provider = StandardResourceProvider::new_in_memory();
    let _validating_provider = provider.to_single_tenant();
}

#[test]
fn test_sort_order_default() {
    let sort_order = SortOrder::default();
    assert!(matches!(sort_order, SortOrder::TenantIdAsc));
}

#[test]
fn test_operational_configuration_methods() {
    let config = OperationalConfiguration::builder()
        .enable_feature("advanced_search".to_string())
        .build();

    assert!(config.is_feature_enabled("advanced_search"));
    assert!(!config.is_feature_enabled("nonexistent_feature"));

    assert!(config.get_rate_limit(RateLimitPeriod::Minute).is_some());
}

#[test]
fn test_isolation_levels() {
    assert_eq!(IsolationLevel::default(), IsolationLevel::Standard);

    let strict = IsolationLevel::Strict;
    let standard = IsolationLevel::Standard;
    let shared = IsolationLevel::Shared;

    assert_ne!(strict, standard);
    assert_ne!(standard, shared);
    assert_ne!(strict, shared);
}

#[test]
fn test_tenant_permissions() {
    let default_perms = TenantPermissions::default();
    assert!(default_perms.can_create);
    assert!(default_perms.can_read);
    assert!(default_perms.can_update);
    assert!(default_perms.can_delete);
    assert!(default_perms.can_list);
    assert!(default_perms.max_users.is_none());
    assert!(default_perms.max_groups.is_none());
}

#[test]
fn test_tenant_context_operations() {
    let context = TenantContext::new("test-tenant".to_string(), "test-client".to_string())
        .with_isolation_level(IsolationLevel::Strict);

    assert_eq!(context.tenant_id, "test-tenant");
    assert_eq!(context.client_id, "test-client");
    assert_eq!(context.isolation_level, IsolationLevel::Strict);
    assert!(context.can_perform_operation("create"));
    assert!(context.can_perform_operation("read"));
    assert!(!context.can_perform_operation("invalid"));
    assert!(context.check_user_limit(100));
    assert!(context.check_group_limit(50));
}

#[test]
fn test_tenant_context_with_limits() {
    let mut permissions = TenantPermissions::default();
    permissions.max_users = Some(10);
    permissions.max_groups = Some(5);

    let context =
        TenantContext::new("test".to_string(), "client".to_string()).with_permissions(permissions);

    assert!(context.check_user_limit(5));
    assert!(!context.check_user_limit(10));
    assert!(context.check_group_limit(3));
    assert!(!context.check_group_limit(5));
}

#[test]
fn test_enhanced_request_context() {
    let tenant_context = TenantContext::new("test".to_string(), "client".to_string());
    let enhanced = EnhancedRequestContext::with_generated_id(tenant_context.clone());

    assert_eq!(enhanced.tenant_id(), "test");
    assert_eq!(enhanced.client_id(), "client");
    assert_eq!(enhanced.isolation_level(), &IsolationLevel::Standard);
    assert!(enhanced.can_perform_operation("read"));
    assert!(enhanced.validate_operation("create").is_ok());

    let regular_context = enhanced.to_request_context();
    assert!(regular_context.is_multi_tenant());
    assert_eq!(regular_context.tenant_id().map(|s| s.as_str()), Some("test"));
}

#[test]
fn test_request_context_conversion() {
    let tenant_context = TenantContext::new("test".to_string(), "client".to_string());
    let regular = RequestContext::with_tenant("req-123".to_string(), tenant_context);

    let enhanced: Result<EnhancedRequestContext, _> = regular.try_into();
    assert!(enhanced.is_ok());

    let enhanced = enhanced.unwrap();
    assert_eq!(enhanced.tenant_id(), "test");
    assert_eq!(enhanced.request_id, "req-123");
}

#[test]
fn test_request_context_conversion_failure() {
    let regular = RequestContext::with_id("req-123".to_string());

    let enhanced: Result<EnhancedRequestContext, _> = regular.try_into();
    assert!(enhanced.is_err());
    assert!(enhanced.unwrap_err().contains("does not contain tenant information"));
}

#[test]
fn test_tenant_validator_success() {
    let validator = MockValidator;
    let tenant_context = TenantContext {
        tenant_id: "test-tenant".to_string(),
        client_id: "client".to_string(),
        permissions: Default::default(),
        isolation_level: Default::default(),
    };
    let context = RequestContext::with_tenant_generated_id(tenant_context);

    assert!(validator.validate_tenant_context("test-tenant", &context).is_ok());
    assert!(validator.require_tenant_context(&context).is_ok());
}

#[test]
fn test_tenant_validator_failure() {
    let validator = MockValidator;
    let tenant_context = TenantContext {
        tenant_id: "test-tenant".to_string(),
        client_id: "client".to_string(),
        permissions: Default::default(),
        isolation_level: Default::default(),
    };
    let context = RequestContext::with_tenant_generated_id(tenant_context);

    let result = validator.validate_tenant_context("different-tenant", &context);
    assert!(result.is_err());
    assert!(result.unwrap_err().contains("Tenant mismatch"));
}

#[test]
fn test_single_tenant_validation() {
    let validator = MockValidator;
    let context = RequestContext::with_generated_id();

    assert!(validator.validate_single_tenant_context(&context).is_ok());

    let tenant_context = TenantContext {
        tenant_id: "test-tenant".to_string(),
        client_id: "client".to_string(),
        permissions: Default::default(),
        isolation_level: Default::default(),
    };
    let multi_context = RequestContext::with_tenant_generated_id(tenant_context);

    assert!(validator.validate_single_tenant_context(&multi_context).is_err());
}

#[test]
fn test_require_tenant_context() {
    let validator = MockValidator;
    let single_context = RequestContext::with_generated_id();

    assert!(validator.require_tenant_context(&single_context).is_err());

    let tenant_context = TenantContext {
        tenant_id: "test-tenant".to_string(),
        client_id: "client".to_string(),
        permissions: Default::default(),
        isolation_level: Default::default(),
    };
    let multi_context = RequestContext::with_tenant_generated_id(tenant_context);

    assert!(validator.require_tenant_context(&multi_context).is_ok());
}

#[test]
fn test_rate_limit_checking() {
    let rate_limits = ScimRateLimits::default();

    assert!(!rate_limits.check_create_limit(50));
    assert!(rate_limits.check_create_limit(100));
    assert!(rate_limits.check_create_limit(150));
}

#[test]
fn scim_config_test_default_configurations() {
    let endpoint = ScimEndpointConfig::default();
    assert_eq!(endpoint.base_path, "/scim/v2");
    assert_eq!(endpoint.scim_version, "2.0");

    let rate_limits = ScimRateLimits::default();
    assert!(rate_limits.create_operations.is_some());
    assert!(rate_limits.global_limit.is_some());

    let audit_config = ScimAuditConfig::default();
    assert!(audit_config.enabled);
    assert_eq!(audit_config.audited_operations.len(), 3);
}
