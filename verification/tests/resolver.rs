use scim_server::multi_tenant::resolver::{
    StaticResolverError, StaticTenantResolver, StaticTenantResolverBuilder, TenantResolver,
};
use scim_server::resource::{IsolationLevel, TenantContext, TenantPermissions};

#[test]
fn test_static_resolver_basic_operations() {
    let mut resolver = StaticTenantResolver::new();
    assert_eq!(resolver.tenant_count(), 0);
    let tenant_context = TenantContext::new("test-tenant".to_string(), "test-client".to_string());
    resolver.add_tenant("test-key", tenant_context.clone());
    assert_eq!(resolver.tenant_count(), 1);
    let resolved = resolver.resolve_tenant("test-key").unwrap();
    assert_eq!(resolved.tenant_id, "test-tenant");
    assert_eq!(resolved.client_id, "test-client");
}

#[test]
fn test_static_resolver_invalid_credentials() {
    let resolver = StaticTenantResolver::new();
    let result = resolver.resolve_tenant("invalid-key");
    assert!(matches!(result, Err(StaticResolverError::InvalidCredentials { .. })));
}

#[test]
fn test_static_resolver_tenant_validation() {
    let mut resolver = StaticTenantResolver::new();
    let tenant_context = TenantContext::new("valid-tenant".to_string(), "client".to_string());
    resolver.add_tenant("key", tenant_context);
    assert!(resolver.validate_tenant("valid-tenant").unwrap());
    assert!(!resolver.validate_tenant("invalid-tenant").unwrap());
}

#[test]
fn test_static_resolver_list_tenants() {
    let mut resolver = StaticTenantResolver::new();
    resolver.add_tenant("key1", TenantContext::new("tenant1".to_string(), "client1".to_string()));
    resolver.add_tenant("key2", TenantContext::new("tenant2".to_string(), "client2".to_string()));
    let tenants = resolver.list_tenants().unwrap();
    assert_eq!(tenants.len(), 2);
    assert!(tenants.contains(&"tenant1".to_string()));
    assert!(tenants.contains(&"tenant2".to_string()));
}

#[test]
fn test_static_resolver_remove_tenant() {
    let mut resolver = StaticTenantResolver::new();
    let tenant_context = TenantContext::new("test".to_string(), "client".to_string());
    resolver.add_tenant("key", tenant_context.clone());
    assert_eq!(resolver.tenant_count(), 1);
    let removed = resolver.remove_tenant("key");
    assert!(removed.is_some());
    assert_eq!(removed.unwrap().tenant_id, "test");
    assert_eq!(resolver.tenant_count(), 0);
    let not_found = resolver.remove_tenant("nonexistent");
    assert!(not_found.is_none());
}

#[test]
fn test_static_resolver_clear() {
    let mut resolver = StaticTenantResolver::new();
    resolver.add_tenant("key1", TenantContext::new("tenant1".to_string(), "client1".to_string()));
    resolver.add_tenant("key2", TenantContext::new("tenant2".to_string(), "client2".to_string()));
    assert_eq!(resolver.tenant_count(), 2);
    resolver.clear();
    assert_eq!(resolver.tenant_count(), 0);
}

#[test]
fn test_static_resolver_is_valid_credential() {
    let mut resolver = StaticTenantResolver::new();
    resolver.add_tenant("valid-key", TenantContext::new("tenant".to_string(), "client".to_string()));
    assert!(resolver.is_valid_credential("valid-key").unwrap());
    assert!(!resolver.is_valid_credential("invalid-key").unwrap());
}

#[test]
fn test_static_resolver_builder() {
    let resolver = StaticTenantResolverBuilder::new()
        .with_tenant("key1", TenantContext::new("tenant1".to_string(), "client1".to_string()))
        .with_tenant(
            "key2",
            TenantContext::new("tenant2".to_string(), "client2".to_string()).with_isolation_level(IsolationLevel::Strict),
        )
        .build();
    assert_eq!(resolver.tenant_count(), 2);
    let tenant1 = resolver.resolve_tenant("key1").unwrap();
    assert_eq!(tenant1.tenant_id, "tenant1");
    assert_eq!(tenant1.isolation_level, IsolationLevel::Standard);
    let tenant2 = resolver.resolve_tenant("key2").unwrap();
    assert_eq!(tenant2.tenant_id, "tenant2");
    assert_eq!(tenant2.isolation_level, IsolationLevel::Strict);
}

#[test]
fn test_static_resolver_get_all_credentials() {
    let mut resolver = StaticTenantResolver::new();
    resolver.add_tenant("key1", TenantContext::new("tenant1".to_string(), "client1".to_string()));
    resolver.add_tenant("key2", TenantContext::new("tenant2".to_string(), "client2".to_string()));
    let credentials = resolver.get_all_credentials();
    assert_eq!(credentials.len(), 2);
    assert!(credentials.contains(&"key1".to_string()));
    assert!(credentials.contains(&"key2".to_string()));
}

#[test]
fn test_complex_tenant_context() {
    let mut permissions = TenantPermissions::default();
    permissions.max_users = Some(100);
    permissions.can_delete = false;
    let tenant_context = TenantContext::new("complex-tenant".to_string(), "complex-client".to_string())
        .with_isolation_level(IsolationLevel::Strict)
        .with_permissions(permissions);
    let mut resolver = StaticTenantResolver::new();
    resolver.add_tenant("complex-key", tenant_context);
    let resolved = resolver.resolve_tenant("complex-key").unwrap();
    assert_eq!(resolved.isolation_level, IsolationLevel::Strict);
    assert_eq!(resolved.permissions.max_users, Some(100));
    assert!(!resolved.permissions.can_delete);
    assert!(resolved.check_user_limit(50));
    assert!(!resolved.check_user_limit(100));
}
