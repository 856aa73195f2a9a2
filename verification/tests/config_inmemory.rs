use scim_server::collections::StrMap;
use scim_server::multi_tenant::config_inmemory::{InMemoryConfigurationProvider, ProviderSettings};
use scim_server::multi_tenant::config_provider::{ConfigurationQuery, ValidationContext};
use scim_server::multi_tenant::configuration::{ConfigurationError, TenantConfiguration};

const SIZE: usize = 512;

fn create_test_configuration(tenant_id: &str) -> TenantConfiguration {
    TenantConfiguration::builder(tenant_id.to_string())
        .with_display_name(format!("Test Tenant {}", tenant_id))
        .build()
        .expect("Should build test configuration")
}

#[test]
fn test_provider_creation() {
    let provider = InMemoryConfigurationProvider::new();
    assert_eq!(provider.size(), 0);
    let provider_with_settings = InMemoryConfigurationProvider::with_settings(ProviderSettings {
        enable_persistence: false,
        max_configurations: Some(100),
        ..Default::default()
    });
    assert_eq!(provider_with_settings.size(), 0);
}

#[test]
fn test_create_configuration() {
    let mut provider = InMemoryConfigurationProvider::new();
    let config = create_test_configuration("tenant-a");
    let before = chrono::Utc::now().timestamp_micros();
    let created = provider.create_configuration(config, SIZE).expect("Should create configuration");
    let after = chrono::Utc::now().timestamp_micros();
    assert_eq!(created.tenant_id, "tenant-a");
    assert_eq!(created.version, 1);
    assert!(before <= created.created_at && created.created_at <= after);
    assert!(created.last_modified <= after);
}

#[test]
fn test_create_duplicate_configuration() {
    let mut provider = InMemoryConfigurationProvider::new();
    let config = create_test_configuration("tenant-a");
    provider.create_configuration(config.clone(), SIZE).expect("Should create first configuration");
    let result = provider.create_configuration(config, SIZE);
    assert!(matches!(result, Err(ConfigurationError::Conflict { .. })));
}

#[test]
fn test_get_configuration() {
    let mut provider = InMemoryConfigurationProvider::new();
    let config = create_test_configuration("tenant-a");
    let result = provider.get_configuration("tenant-a").expect("Should not error");
    assert!(result.is_none());
    provider.create_configuration(config, SIZE).expect("Should create configuration");
    let retrieved = provider
        .get_configuration("tenant-a")
        .expect("Should retrieve configuration")
        .expect("Should find configuration");
    assert_eq!(retrieved.tenant_id, "tenant-a");
}

#[test]
fn test_update_configuration() {
    let mut provider = InMemoryConfigurationProvider::new();
    let config = create_test_configuration("tenant-a");
    let created = provider.create_configuration_at(config, SIZE, 1_000).expect("Should create configuration");
    let mut updated_config = created.clone();
    updated_config.display_name = "Updated Name".to_string();
    let updated = provider
        .update_configuration_at(updated_config, SIZE, 2_000)
        .expect("Should update configuration");
    assert_eq!(updated.display_name, "Updated Name");
    assert_eq!(updated.version, 2);
    assert!(updated.last_modified > created.last_modified);
}

#[test]
fn test_update_nonexistent_configuration() {
    let mut provider = InMemoryConfigurationProvider::new();
    let config = create_test_configuration("tenant-a");
    let result = provider.update_configuration(config, SIZE);
    assert!(matches!(result, Err(ConfigurationError::NotFound { .. })));
}

#[test]
fn test_version_mismatch() {
    let mut provider = InMemoryConfigurationProvider::new();
    let config = create_test_configuration("tenant-a");
    let created = provider.create_configuration(config, SIZE).expect("Should create configuration");
    let mut stale_config = created.clone();
    stale_config.version = 999;
    let result = provider.update_configuration(stale_config, SIZE);
    assert!(matches!(result, Err(ConfigurationError::VersionMismatch { .. })));
}

#[test]
fn test_delete_configuration() {
    let mut provider = InMemoryConfigurationProvider::new();
    let config = create_test_configuration("tenant-a");
    let created = provider.create_configuration(config, SIZE).expect("Should create configuration");
    provider
        .delete_configuration("tenant-a", Some(created.version))
        .expect("Should delete configuration");
    let result = provider.get_configuration("tenant-a").expect("Should not error");
    assert!(result.is_none());
}

#[test]
fn test_delete_with_wrong_version() {
    let mut provider = InMemoryConfigurationProvider::new();
    let config = create_test_configuration("tenant-a");
    provider.create_configuration(config, SIZE).expect("Should create configuration");
    let result = provider.delete_configuration("tenant-a", Some(999));
    assert!(matches!(result, Err(ConfigurationError::VersionMismatch { .. })));
}

#[test]
fn test_configuration_exists() {
    let mut provider = InMemoryConfigurationProvider::new();
    let config = create_test_configuration("tenant-a");
    assert!(!provider.configuration_exists("tenant-a").expect("Should not error"));
    provider.create_configuration(config, SIZE).expect("Should create configuration");
    assert!(provider.configuration_exists("tenant-a").expect("Should not error"));
}

#[test]
fn test_list_configurations() {
    let mut provider = InMemoryConfigurationProvider::new();
    for i in 1..=5 {
        let config = create_test_configuration(&format!("tenant-{}", i));
        provider.create_configuration(config, SIZE).expect("Should create configuration");
    }
    let query = ConfigurationQuery::default();
    let result = provider.list_configurations(&query).expect("Should list configurations");
    assert_eq!(result.configurations.len(), 5);
    assert_eq!(result.total_count, 5);
    assert!(!result.has_more);
}

#[test]
fn test_list_configurations_with_pagination() {
    let mut provider = InMemoryConfigurationProvider::new();
    for i in 1..=10 {
        let config = create_test_configuration(&format!("tenant-{:02}", i));
        provider.create_configuration(config, SIZE).expect("Should create configuration");
    }
    let query = ConfigurationQuery {
        offset: Some(3),
        limit: Some(4),
        ..Default::default()
    };
    let result = provider.list_configurations(&query).expect("Should list configurations");
    assert_eq!(result.configurations.len(), 4);
    assert_eq!(result.total_count, 10);
    assert!(result.has_more);
    assert_eq!(result.next_offset, Some(7));
}

#[test]
fn test_list_configurations_with_filtering() {
    let mut provider = InMemoryConfigurationProvider::new();
    let config1 = TenantConfiguration::builder("alpha-tenant".to_string())
        .with_display_name("Alpha Company".to_string())
        .build()
        .expect("Should build configuration");
    let config2 = TenantConfiguration::builder("beta-tenant".to_string())
        .with_display_name("Beta Corporation".to_string())
        .build()
        .expect("Should build configuration");
    provider.create_configuration(config1, SIZE).expect("Should create configuration");
    provider.create_configuration(config2, SIZE).expect("Should create configuration");
    let query = ConfigurationQuery {
        display_name_filter: Some("Alpha".to_string()),
        ..Default::default()
    };
    let result = provider.list_configurations(&query).expect("Should list configurations");
    assert_eq!(result.configurations.len(), 1);
    assert_eq!(result.configurations[0].tenant_id, "alpha-tenant");
}

#[test]
fn test_count_configurations() {
    let mut provider = InMemoryConfigurationProvider::new();
    assert_eq!(provider.count_configurations().expect("Should not error"), 0);
    let config = create_test_configuration("tenant-a");
    provider.create_configuration(config, SIZE).expect("Should create configuration");
    assert_eq!(provider.count_configurations().expect("Should not error"), 1);
}

#[test]
fn test_get_configuration_stats() {
    let mut provider = InMemoryConfigurationProvider::new();
    let stats = provider.get_configuration_stats(&Vec::new()).expect("Should get stats");
    assert_eq!(stats.total_configurations, 0);
    let config = create_test_configuration("tenant-a");
    provider.create_configuration(config, SIZE).expect("Should create configuration");
    let stats = provider.get_configuration_stats(&vec![SIZE]).expect("Should get stats");
    assert_eq!(stats.total_configurations, 1);
    assert!(stats.average_size > 0);
    assert!(stats.newest_configuration.is_some());
}

#[test]
fn test_validate_configuration() {
    let provider = InMemoryConfigurationProvider::new();
    let config = create_test_configuration("tenant-a");
    let context = ValidationContext {
        is_create: true,
        previous_configuration: None,
        validation_params: StrMap::new(),
    };
    provider
        .validate_configuration(&config, &context, SIZE)
        .expect("Should validate configuration");
}

#[test]
fn test_cache_operations() {
    let mut provider = InMemoryConfigurationProvider::new();
    let config = create_test_configuration("tenant-a");
    provider.create_configuration(config, SIZE).expect("Should create configuration");
    assert_eq!(provider.size(), 1);
    provider.clear_cache("tenant-a").expect("Should clear cache");
    assert_eq!(provider.size(), 0);
}

#[test]
fn test_persistence() {
    let mut provider = InMemoryConfigurationProvider::with_persistence("test_configs.json".to_string());
    for i in 1..=3 {
        let config = create_test_configuration(&format!("tenant-{}", i));
        provider.create_configuration(config, SIZE).expect("Should create configuration");
    }
    assert_eq!(provider.persistence_target().expect("persistence"), "test_configs.json");
    let saved: Vec<TenantConfiguration> = provider.backup_selection(None).into_iter().cloned().collect();
    assert_eq!(saved.len(), 3);
    provider.clear();
    assert_eq!(provider.size(), 0);
    let loaded_count = provider.load_configurations(saved);
    assert_eq!(loaded_count, 3);
    assert_eq!(provider.size(), 3);
}

#[test]
fn test_backup_and_restore() {
    let mut provider = InMemoryConfigurationProvider::new();
    for i in 1..=3 {
        let config = create_test_configuration(&format!("tenant-{}", i));
        provider.create_configuration(config, SIZE).expect("Should create configuration");
    }
    let backup: Vec<TenantConfiguration> = provider.backup_selection(None).into_iter().cloned().collect();
    let backup_id = scim_server::multi_tenant::config_inmemory::backup_id_at(chrono::Utc::now().timestamp());
    assert!(backup_id.starts_with("backup-"));
    provider.clear();
    assert_eq!(provider.size(), 0);
    let restored_count = provider.restore_configurations_from(backup, true);
    assert_eq!(restored_count, 3);
    assert_eq!(provider.size(), 3);
}

#[test]
fn test_capacity_limits() {
    let settings = ProviderSettings {
        max_configurations: Some(2),
        ..Default::default()
    };
    let mut provider = InMemoryConfigurationProvider::with_settings(settings);
    for i in 1..=2 {
        let config = create_test_configuration(&format!("tenant-{}", i));
        provider.create_configuration(config, SIZE).expect("Should create configuration");
    }
    let config = create_test_configuration("tenant-3");
    let result = provider.create_configuration(config, SIZE);
    match result {
        Err(e) => assert!(e.message().contains("Maximum configuration limit")),
        Ok(_) => panic!("expected the limit to be reached"),
    }
}

#[test]
fn test_invalid_tenant_id() {
    let mut provider = InMemoryConfigurationProvider::new();
    assert!(provider.get_configuration("").is_err());
    assert!(provider.get_configuration("tenant@invalid").is_err());
    let long_id = "a".repeat(300);
    assert!(provider.get_configuration(&long_id).is_err());
}
