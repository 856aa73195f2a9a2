use scim_server::multi_tenant::config_inmemory::{InMemoryConfigurationProvider, backup_id_at, backup_path, file_refused};
use scim_server::collections::StrMap;
use scim_server::json::JsonValue;
use scim_server::multi_tenant::config_provider::{
    BulkConfigurationOperation, BulkOperationResult, ConfigurationQuery, SortOrder, ValidationContext,
};
use scim_server::multi_tenant::configuration::{
    AuditLevel, ComplianceConfiguration, OperationalConfiguration, SchemaConfiguration,
    TenantConfiguration,
};
use scim_server::multi_tenant::resolver::StaticTenantResolver;
use scim_server::multi_tenant::scim_config::ScimTenantConfiguration;
use scim_server::resource::{EnhancedRequestContext, TenantContext};

#[test]
fn test_configuration_query_default() {
    let query = ConfigurationQuery::default();
    assert!(query.tenant_ids.is_none());
    assert!(query.display_name_filter.is_none());
    assert!(query.offset.is_none());
    assert!(query.limit.is_none());
    assert!(matches!(query.sort_order, SortOrder::TenantIdAsc));
}

#[test]
fn test_validation_context() {
    let context = ValidationContext {
        is_create: true,
        previous_configuration: None,
        validation_params: StrMap::new(),
    };

    assert!(context.is_create);
    assert!(context.previous_configuration.is_none());
    assert_eq!(context.validation_params.len(), 0);
}

#[test]
fn test_bulk_operation_types() {
    let config = TenantConfiguration::builder("test-tenant".to_string())
        .build()
        .expect("Should build configuration");

    let operations = vec![
        BulkConfigurationOperation::Create(config.clone()),
        BulkConfigurationOperation::Update(config.clone()),
        BulkConfigurationOperation::Delete {
            tenant_id: "test-tenant".to_string(),
            expected_version: Some(1),
        },
        BulkConfigurationOperation::Validate(config),
    ];

    assert_eq!(operations.len(), 4);
}

#[test]
fn test_tenant_configuration_builder() {
    let config = TenantConfiguration::builder("test-tenant".to_string())
        .with_display_name("Test Tenant".to_string())
        .build()
        .expect("Should build valid configuration");

    assert_eq!(config.tenant_id, "test-tenant");
    assert_eq!(config.display_name, "Test Tenant");
    assert_eq!(config.version, 1);
}

#[test]
fn test_schema_configuration_builder() {
    let definition = JsonValue::object()
        .with("type", JsonValue::text("string"))
        .with("required", JsonValue::Bool(false));
    let schema_config = SchemaConfiguration::builder()
        .add_custom_attribute("customField".to_string(), definition)
        .disable_standard_attribute("nickName".to_string())
        .require_attribute("department".to_string())
        .build();

    assert!(schema_config.custom_attributes.contains_key("customField"));
    assert!(schema_config.disabled_attributes.contains(&"nickName".to_string()));
    assert!(schema_config.additional_required.contains(&"department".to_string()));
}

#[test]
fn test_operational_configuration_builder() {
    let op_config = OperationalConfiguration::builder()
        .enable_feature("advanced_search".to_string())
        .disable_feature("bulk_operations".to_string())
        .build();

    assert_eq!(op_config.feature_flags.get("advanced_search"), Some(&true));
    assert_eq!(op_config.feature_flags.get("bulk_operations"), Some(&false));
}

#[test]
fn test_configuration_validation() {
    let valid_config = TenantConfiguration::builder("test-tenant".to_string())
        .build()
        .expect("Should build valid configuration");

    assert!(valid_config.validate().is_ok());

    let mut invalid_config = valid_config.clone();
    invalid_config.operational.resource_limits.max_users = Some(0);
    assert!(invalid_config.validate().is_err());
}

#[test]
fn test_schema_configuration_methods() {
    let config = SchemaConfiguration::builder()
        .disable_standard_attribute("nickName".to_string())
        .require_attribute("department".to_string())
        .build();

    assert!(config.is_attribute_disabled("nickName"));
    assert!(!config.is_attribute_disabled("userName"));
    assert!(config.is_attribute_required("department"));
    assert!(!config.is_attribute_required("nickName"));
}

#[test]
fn configuration_test_default_configurations() {
    let schema_default = SchemaConfiguration::default();
    assert_eq!(schema_default.custom_attributes.len(), 0);
    assert!(schema_default.disabled_attributes.is_empty());

    let operational_default = OperationalConfiguration::default();
    assert!(operational_default.rate_limits.requests_per_minute.is_some());
    assert!(operational_default.performance_settings.enable_caching);

    let compliance_default = ComplianceConfiguration::default();
    assert_eq!(compliance_default.audit_level, AuditLevel::Basic);
    assert!(compliance_default.encryption_requirements.encrypt_at_rest);
}

#[test]
fn test_module_exports() {
    let _resolver = StaticTenantResolver::new();

    let tenant_context = TenantContext::new("test".to_string(), "client".to_string());
    let _enhanced_context = EnhancedRequestContext::with_generated_id(tenant_context);
}

#[test]
fn test_scim_tenant_configuration_builder() {
    let config = ScimTenantConfiguration::builder("test-tenant".to_string())
        .with_endpoint_path("/scim/v2")
        .with_scim_rate_limit(100, 60)
        .with_scim_client("client-1", "api_key_123")
        .enable_scim_audit_log()
        .with_schema_extension("urn:ietf:params:scim:schemas:extension:enterprise:2.0:User", false)
        .build()
        .expect("Valid SCIM configuration");

    assert_eq!(config.tenant_id, "test-tenant");
    assert_eq!(config.endpoint.base_path, "/scim/v2");
    assert_eq!(config.clients.len(), 1);
    assert_eq!(config.clients[0].client_id, "client-1");
    assert!(config.audit_config.enabled);
    assert_eq!(config.schema_config.extensions.len(), 1);
}

#[test]
fn test_client_config_lookup() {
    let config = ScimTenantConfiguration::builder("test-tenant".to_string())
        .with_scim_client("client-1", "api_key_123")
        .with_scim_client("client-2", "api_key_456")
        .build()
        .expect("Valid configuration");

    assert!(config.get_client_config("client-1").is_some());
    assert!(config.get_client_config("client-2").is_some());
    assert!(config.get_client_config("client-3").is_none());
}

#[test]
fn test_schema_extension_checking() {
    let config = ScimTenantConfiguration::builder("test-tenant".to_string())
        .with_schema_extension("urn:ietf:params:scim:schemas:extension:enterprise:2.0:User", true)
        .build()
        .expect("Valid configuration");

    assert!(config.has_schema_extension("urn:ietf:params:scim:schemas:extension:enterprise:2.0:User"));
    assert!(!config.has_schema_extension("urn:example:custom:extension"));
}

#[test]
fn in_memory_statistics_restore_and_cache_clearing() {
    let mut provider = InMemoryConfigurationProvider::new();
    let empty = provider.get_configuration_stats(&Vec::new()).expect("stats");
    assert_eq!(empty.total_configurations, 0);
    assert!(empty.newest_configuration.is_none());
    for (i, t) in ["tenant-1", "tenant-2", "tenant-3"].iter().enumerate() {
        let c = scim_server::multi_tenant::configuration::TenantConfiguration::builder(t.to_string())
            .build()
            .expect("valid");
        provider.create_configuration_at(c, 100 + i, 1_000 * (i as i64 + 1)).expect("created");
    }
    let stats = provider.get_configuration_stats_at(86_400_000_000 + 2_500, &vec![100, 101, 102]);
    assert_eq!(stats.total_configurations, 3);
    assert_eq!(stats.recent_configurations, 1);
    assert_eq!(stats.recently_modified, 1);
    assert_eq!(stats.total_storage_used, 303);
    assert_eq!(stats.average_size, 101);
    assert_eq!(stats.newest_configuration, Some(3_000));
    assert_eq!(stats.oldest_configuration, Some(1_000));
    assert_eq!(stats.version_distribution.get(&1), Some(&3));
    assert_eq!(stats.version_distribution.len(), 1);

    let all = provider.backup_selection(None);
    assert_eq!(all.len(), 3);
    let some_ids = vec!["tenant-2".to_string(), "nobody".to_string()];
    let some = provider.backup_selection(Some(&some_ids));
    assert_eq!(some.len(), 1);
    assert_eq!(some[0].tenant_id, "tenant-2");
    assert_eq!(provider.warm_cache(Some(&some_ids)).expect("count"), 1);
    assert_eq!(provider.warm_cache(None).expect("count"), 3);
    let copies: Vec<_> = all.iter().map(|c| (*c).clone()).collect();

    provider.clear_cache("tenant-1").expect("cleared");
    assert_eq!(provider.size(), 2);
    assert!(provider.clear_cache("bad id!").is_err());

    assert_eq!(provider.restore_configurations_from(copies.clone(), false), 1);
    assert_eq!(provider.size(), 3);
    provider.clear();
    assert_eq!(provider.restore_configurations_from(copies.clone(), true), 3);
    assert_eq!(provider.size(), 3);
    assert_eq!(provider.load_configurations(copies), 3);

    assert_eq!(backup_id_at(1_700_000_000), "backup-1700000000");
    assert_eq!(backup_path("/tmp/b", "backup-1"), "/tmp/b/backup-1.json");
    assert_eq!(file_refused("write backup", "denied").message(), "Configuration validation failed: Failed to write backup file: denied");
    assert!(provider.persistence_target().is_err());
    let persisted = InMemoryConfigurationProvider::with_persistence("/tmp/p.json".to_string());
    assert_eq!(persisted.persistence_target().expect("set"), "/tmp/p.json");
}

#[test]
fn all_configurations_come_in_tenant_order() {
    let mut provider = InMemoryConfigurationProvider::new();
    for t in ["zeta", "alpha", "mid"] {
        let c = scim_server::multi_tenant::configuration::TenantConfiguration::builder(t.to_string())
            .build()
            .expect("valid");
        provider.create_configuration(c, 10).expect("created");
    }
    let all = provider.get_all_configurations().expect("listed");
    let ids: Vec<&str> = all.iter().map(|c| c.tenant_id.as_str()).collect();
    assert_eq!(ids, vec!["alpha", "mid", "zeta"]);
}

#[test]
fn test_bulk_operations() {
    let mut provider = InMemoryConfigurationProvider::new();
    let operations = vec![
        BulkConfigurationOperation::Create(test_config("tenant-1")),
        BulkConfigurationOperation::Create(test_config("tenant-2")),
        BulkConfigurationOperation::Delete {
            tenant_id: "nonexistent".to_string(),
            expected_version: None,
        },
        BulkConfigurationOperation::Validate(test_config("tenant-3")),
    ];
    let results = provider.bulk_operations(operations, &vec![10, 10, 0, 10]).expect("Should perform bulk operations");
    assert_eq!(results.len(), 4);
    assert!(matches!(results[0], BulkOperationResult::Success { .. }));
    assert!(matches!(results[1], BulkOperationResult::Success { .. }));
    match &results[2] {
        BulkOperationResult::Error { tenant_id, operation, error } => {
            assert_eq!(tenant_id, "nonexistent");
            assert_eq!(operation, "delete");
            assert_eq!(error, "Configuration not found for tenant: nonexistent");
        },
        other => panic!("unexpected {:?}", other),
    }
    match &results[3] {
        BulkOperationResult::Success { configuration, .. } => {
            assert_eq!(configuration.as_ref().map(|c| c.tenant_id.as_str()), Some("tenant-3"));
        },
        other => panic!("unexpected {:?}", other),
    }
    assert_eq!(provider.size(), 2);
}

fn test_config(tenant: &str) -> TenantConfiguration {
    TenantConfiguration::builder(tenant.to_string())
        .with_display_name(format!("Test Tenant {}", tenant))
        .build()
        .expect("Should build test configuration")
}

#[test]
fn test_configuration_touch() {
    let mut config = TenantConfiguration::builder("test-tenant".to_string())
        .build()
        .expect("Should build valid configuration");
    let first_version = config.version;
    let first_modified = config.last_modified;
    config.touch_at(first_modified + 1_000);
    assert_eq!(config.version, first_version + 1);
    assert!(config.last_modified > first_modified);
}

#[test]
fn lookups_are_counted_and_clearing_evicts() {
    let mut provider = InMemoryConfigurationProvider::new();
    assert_eq!(provider.cache_counters(), (0, 0, 0));
    provider.create_configuration(test_config("tenant-a"), 10).expect("created");
    provider.create_configuration(test_config("tenant-b"), 10).expect("created");
    assert!(provider.get_configuration("tenant-a").expect("read").is_some());
    assert!(provider.get_configuration("tenant-z").expect("read").is_none());
    assert!(provider.get_configuration("bad id!").is_err());
    assert_eq!(provider.cache_counters(), (1, 1, 0));
    provider.clear_all_cache().expect("cleared");
    assert_eq!(provider.size(), 0);
    assert_eq!(provider.cache_counters(), (0, 0, 2));
}
