use scim_server::provider_capabilities::{CapabilityDiscovery, FilterOperator};
use scim_server::json::JsonValue;
use scim_server::resource::{RequestContext, Resource, UserContext};
use scim_server::schema::SchemaRegistry;

#[test]
fn test_request_context_creation() {
    let context = RequestContext::new();
    assert!(!context.request_id.is_empty());

    let context_with_id = RequestContext::with_id("test-123".to_string());
    assert_eq!(context_with_id.request_id, "test-123");
}

#[test]
fn test_user_context() {
    let user_context = UserContext::new(
        "user123".to_string(),
        vec!["admin".to_string(), "user".to_string()],
    );

    assert!(user_context.has_role("admin"));
    assert!(user_context.has_role("user"));
    assert!(!user_context.has_role("superuser"));
}

#[test]
fn test_discover_schemas() {
    let registry = SchemaRegistry::new().expect("Failed to create schema registry");
    let schemas = CapabilityDiscovery::discover_schemas(&registry);

    assert!(!schemas.is_empty());
    assert!(schemas.contains(&"urn:ietf:params:scim:schemas:core:2.0:User".to_string()));
}

#[test]
fn test_has_string_attributes() {
    let registry = SchemaRegistry::new().expect("Failed to create schema registry");
    assert!(CapabilityDiscovery::has_string_attributes(&registry));
}

#[test]
fn test_has_comparable_attributes() {
    let registry = SchemaRegistry::new().expect("Failed to create schema registry");
    assert!(CapabilityDiscovery::has_comparable_attributes(&registry));
}

#[test]
fn test_filter_operators() {
    let registry = SchemaRegistry::new().expect("Failed to create schema registry");
    let operators = CapabilityDiscovery::determine_supported_operators(&registry);

    assert!(operators.contains(&FilterOperator::Equal));
    assert!(operators.contains(&FilterOperator::Present));
    assert!(operators.contains(&FilterOperator::Contains));
    assert!(operators.contains(&FilterOperator::StartsWith));
    assert!(operators.contains(&FilterOperator::GreaterThan));
    assert!(operators.contains(&FilterOperator::LessThan));
}

#[test]
fn test_resource_creation() {
    let data = JsonValue::object()
        .with("userName", JsonValue::text("testuser"))
        .with("displayName", JsonValue::text("Test User"));
    let resource = Resource::new("User".to_string(), data);
    assert_eq!(resource.resource_type, "User");
    assert_eq!(resource.get_username().map(|s| s.as_str()), Some("testuser"));
}

#[test]
fn test_resource_id_extraction() {
    let data = JsonValue::object()
        .with("id", JsonValue::text("12345"))
        .with("userName", JsonValue::text("testuser"));
    let resource = Resource::new("User".to_string(), data);
    assert_eq!(resource.get_id().map(|s| s.as_str()), Some("12345"));
}

#[test]
fn test_resource_schemas() {
    let data = JsonValue::object().with("userName", JsonValue::text("testuser"));
    let resource = Resource::new("User".to_string(), data);
    let schemas = resource.get_schemas();
    assert_eq!(schemas.len(), 1);
    assert_eq!(schemas[0], "urn:ietf:params:scim:schemas:core:2.0:User");
}

#[test]
fn test_email_extraction() {
    let email = JsonValue::object()
        .with("value", JsonValue::text("test@example.com"))
        .with("type", JsonValue::text("work"))
        .with("primary", JsonValue::Bool(true));
    let data = JsonValue::object()
        .with("userName", JsonValue::text("testuser"))
        .with("emails", JsonValue::Array(vec![email]));
    let resource = Resource::new("User".to_string(), data);
    let emails = resource.get_emails();
    assert_eq!(emails.len(), 1);
    assert_eq!(emails[0].value, "test@example.com");
    assert_eq!(emails[0].email_type, Some("work".to_string()));
    assert_eq!(emails[0].primary, Some(true));
}

#[test]
fn test_resource_active_status() {
    let active_data = JsonValue::object()
        .with("userName", JsonValue::text("testuser"))
        .with("active", JsonValue::Bool(true));
    let active_resource = Resource::new("User".to_string(), active_data);
    assert!(active_resource.is_active());

    let inactive_data = JsonValue::object()
        .with("userName", JsonValue::text("testuser"))
        .with("active", JsonValue::Bool(false));
    let inactive_resource = Resource::new("User".to_string(), inactive_data);
    assert!(!inactive_resource.is_active());

    let no_active_data = JsonValue::object().with("userName", JsonValue::text("testuser"));
    let default_resource = Resource::new("User".to_string(), no_active_data);
    assert!(default_resource.is_active());
}

#[test]
fn resource_add_metadata_sets_meta() {
    let data = JsonValue::object().with("id", JsonValue::text("42"));
    let mut resource = Resource::new("User".to_string(), data);
    resource.add_metadata("https://h/v2", "2024-01-01T00:00:00Z", "2024-01-02T00:00:00Z");
    let meta = resource.data.get("meta").expect("meta");
    assert_eq!(meta.get_str("location").map(|s| s.as_str()), Some("https://h/v2/Users/42"));
    assert_eq!(
        meta.get_str("version").map(|s| s.as_str()),
        Some("W/\"42-2024-01-02T00:00:00Z\"")
    );
    assert_eq!(meta.get_str("resourceType").map(|s| s.as_str()), Some("User"));
}

#[test]
fn core_schemas_hold_their_attributes() {
    let registry = SchemaRegistry::new().expect("registry");
    let schemas = registry.get_schemas();
    let user = &schemas[0];
    assert_eq!(user.attributes.len(), 19);
    assert_eq!(user.attributes[2].name, "userName");
    assert!(user.attributes[2].required);
    assert_eq!(user.attributes[18].name, "meta");
    assert_eq!(user.attributes[18].sub_attributes[1].name, "created");
    let group = &schemas[1];
    assert_eq!(group.attributes.len(), 5);
    assert_eq!(group.attributes[3].name, "members");
    assert!(group.attributes[3].multi_valued);
    let operators = CapabilityDiscovery::determine_supported_operators(&registry);
    assert_eq!(operators.len(), 10);
}
