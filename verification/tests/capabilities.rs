use scim_server::collections::StrMap;
use scim_server::provider_capabilities::{
    AuthenticationCapabilities, BulkCapabilities, CapabilityDiscovery, ExtendedCapabilities,
    FilterCapabilities, PaginationCapabilities, ProviderCapabilities,
};

#[test]
fn test_service_provider_config_generation() {
    let mut extended = ExtendedCapabilities::default();
    extended.patch_supported = true;
    let capabilities = ProviderCapabilities {
        supported_operations: StrMap::new(),
        supported_schemas: vec!["urn:ietf:params:scim:schemas:core:2.0:User".to_string()],
        supported_resource_types: vec!["User".to_string()],
        bulk_capabilities: BulkCapabilities {
            supported: true,
            max_operations: Some(100),
            max_payload_size: Some(1024 * 1024),
            fail_on_errors_supported: true,
        },
        filter_capabilities: FilterCapabilities::default(),
        pagination_capabilities: PaginationCapabilities::default(),
        authentication_capabilities: AuthenticationCapabilities::default(),
        extended_capabilities: extended,
    };

    let config = CapabilityDiscovery::generate_service_provider_config(&capabilities);

    assert!(config.bulk_supported);
    assert!(config.patch_supported);
    assert_eq!(config.bulk_max_operations, Some(100));
    assert_eq!(config.bulk_max_payload_size, Some(1024 * 1024));
}
