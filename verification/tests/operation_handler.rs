use scim_server::json::JsonValue;
use scim_server::operation_handler::handler::{handle_patch, ScimOperationHandler};
use scim_server::operation_handler::{
    create_error_response, create_version_conflict_response, ScimError, ScimOperationRequest,
    ScimOperationResponse, ScimQuery,
};
use scim_server::providers::error::{ProviderError, RawVersion, VersionConflict};
use scim_server::providers::standard::StandardResourceProvider;
use scim_server::resource::{RequestContext, TenantContext};

fn content_version(doc: &JsonValue) -> String {
    std::hash::BuildHasher::hash_one(
        &std::hash::BuildHasherDefault::<std::collections::hash_map::DefaultHasher>::default(),
        doc.to_json_string().as_str(),
    )
    .to_string()
}

fn handler() -> ScimOperationHandler {
    ScimOperationHandler::new(StandardResourceProvider::new_in_memory())
}

fn user(user_name: &str, given: &str, family: &str) -> JsonValue {
    let name = JsonValue::object()
        .with("givenName", JsonValue::text(given))
        .with("familyName", JsonValue::text(family));
    JsonValue::object()
        .with("userName", JsonValue::text(user_name))
        .with("name", name)
}

fn additional_text(response: &ScimOperationResponse, key: &str) -> String {
    response
        .metadata
        .additional
        .get(key)
        .and_then(|v| v.as_str())
        .expect("metadata member")
        .clone()
}

fn created_id(response: &ScimOperationResponse) -> String {
    response
        .data
        .as_ref()
        .and_then(|d| d.get_str("id"))
        .expect("created resource has an id")
        .clone()
}

#[test]
fn test_operation_handler_create() {
    let mut handler = handler();
    let request = ScimOperationRequest::create("User", user("testuser", "Test", "User"));
    let response = handler.handle_operation(request);
    assert!(response.success);
    assert!(response.data.is_some());
    assert!(response.error.is_none());
}

#[test]
fn test_operation_handler_get_schemas() {
    let mut handler = handler();
    let response = handler.handle_operation(ScimOperationRequest::get_schemas());
    assert!(response.success);
    assert!(response.data.is_some());
    if let Some(data) = response.data {
        assert!(data.get("schemas").is_some());
    }
    assert_eq!(response.metadata.resource_count, Some(2));
}

#[test]
fn test_operation_handler_error_handling() {
    let mut handler = handler();
    let response = handler.handle_operation(ScimOperationRequest::get("User", "non-existent-id"));
    assert!(!response.success);
    assert!(response.error.is_some());
    assert_eq!(response.error_code.as_deref(), Some("RESOURCE_NOT_FOUND"));
    assert_eq!(
        response.error.as_deref(),
        Some("Resource not found: User with ID non-existent-id")
    );
}

#[test]
fn test_conditional_update_with_correct_version() {
    let mut handler = handler();
    let create = handler.handle_operation(ScimOperationRequest::create(
        "User",
        user("testuser", "Test", "User"),
    ));
    assert!(create.success);
    let user_id = created_id(&create);

    let get = handler.handle_operation(ScimOperationRequest::get("User", &user_id));
    assert!(get.success);
    let current_version = RawVersion::from_hash(&additional_text(&get, "version"));

    let update = ScimOperationRequest::update("User", &user_id, user("updateduser", "Updated", "User"))
        .with_expected_version(current_version);
    let response = handler.handle_operation(update);
    assert!(response.success);
    assert!(response.metadata.additional.contains_key("version"));
    assert!(response.metadata.additional.contains_key("etag"));
}

#[test]
fn test_conditional_update_version_mismatch() {
    let mut handler = handler();
    let create = handler.handle_operation(ScimOperationRequest::create(
        "User",
        user("testuser", "Test", "User"),
    ));
    assert!(create.success);
    let user_id = created_id(&create);

    let update = ScimOperationRequest::update(
        "User",
        &user_id,
        JsonValue::object().with("userName", JsonValue::text("updateduser")),
    )
    .with_expected_version(RawVersion::from_hash("incorrect-version"));
    let response = handler.handle_operation(update);
    assert!(!response.success);
    assert_eq!(response.error_code.as_deref(), Some("version_mismatch"));
    assert!(response.error.is_some());
    assert!(response.metadata.additional.contains_key("expected_version"));
    assert!(response.metadata.additional.contains_key("current_version"));
}

#[test]
fn test_conditional_delete_with_correct_version() {
    let mut handler = handler();
    let create = handler.handle_operation(ScimOperationRequest::create(
        "User",
        user("testuser", "Test", "User"),
    ));
    assert!(create.success);
    let user_id = created_id(&create);

    let get = handler.handle_operation(ScimOperationRequest::get("User", &user_id));
    assert!(get.success);
    let current_version = RawVersion::from_hash(&additional_text(&get, "version"));

    let delete = ScimOperationRequest::delete("User", &user_id).with_expected_version(current_version);
    let response = handler.handle_operation(delete);
    assert!(response.success);
}

#[test]
fn test_conditional_delete_version_mismatch() {
    let mut handler = handler();
    let create = handler.handle_operation(ScimOperationRequest::create(
        "User",
        user("testuser", "Test", "User"),
    ));
    assert!(create.success);
    let user_id = created_id(&create);

    let delete = ScimOperationRequest::delete("User", &user_id)
        .with_expected_version(RawVersion::from_hash("incorrect-version"));
    let response = handler.handle_operation(delete);
    assert!(!response.success);
    assert_eq!(response.error_code.as_deref(), Some("version_mismatch"));
    assert!(response.error.is_some());
    assert!(response.metadata.additional.contains_key("expected_version"));
    assert!(response.metadata.additional.contains_key("current_version"));
}

#[test]
fn test_regular_operations_include_version_info() {
    let mut handler = handler();
    let create = handler.handle_operation(ScimOperationRequest::create(
        "User",
        user("testuser", "Test", "User"),
    ));
    assert!(create.success);
    assert!(create.metadata.additional.contains_key("version"));
    assert!(create.metadata.additional.contains_key("etag"));
    let user_id = created_id(&create);

    let get = handler.handle_operation(ScimOperationRequest::get("User", &user_id));
    assert!(get.success);
    assert!(get.metadata.additional.contains_key("version"));
    assert!(get.metadata.additional.contains_key("etag"));

    let update = handler.handle_operation(ScimOperationRequest::update(
        "User",
        &user_id,
        user("updateduser", "Updated", "User"),
    ));
    assert!(update.success);
    assert!(update.metadata.additional.contains_key("version"));
    assert!(update.metadata.additional.contains_key("etag"));
}

#[test]
fn test_phase_3_complete_integration() {
    let mut handler = handler();
    let create = handler.handle_operation(ScimOperationRequest::create(
        "User",
        user("integration.test", "Integration", "Test").with("active", JsonValue::Bool(true)),
    ));
    assert!(create.success);
    let user_id = created_id(&create);
    let v1_etag = additional_text(&create, "etag");
    let v1_version = RawVersion::from_hash(&additional_text(&create, "version"));

    let get = handler.handle_operation(ScimOperationRequest::get("User", &user_id));
    assert!(get.success);
    assert_eq!(additional_text(&get, "etag"), v1_etag);

    let update1 = handler.handle_operation(ScimOperationRequest::update(
        "User",
        &user_id,
        user("integration.updated", "Integration", "Updated").with("active", JsonValue::Bool(true)),
    ));
    assert!(update1.success);
    let v2_etag = additional_text(&update1, "etag");
    assert_ne!(v1_etag, v2_etag);
    let v2_version = RawVersion::from_hash(&additional_text(&update1, "version"));

    let conditional = handler.handle_operation(
        ScimOperationRequest::update(
            "User",
            &user_id,
            JsonValue::object()
                .with("userName", JsonValue::text("integration.conditional"))
                .with("active", JsonValue::Bool(false)),
        )
        .with_expected_version(v2_version),
    );
    assert!(conditional.success);
    let v3_etag = additional_text(&conditional, "etag");
    assert_ne!(v2_etag, v3_etag);

    let stale = handler.handle_operation(
        ScimOperationRequest::update(
            "User",
            &user_id,
            JsonValue::object().with("userName", JsonValue::text("should.fail")),
        )
        .with_expected_version(v1_version),
    );
    assert!(!stale.success);
    assert_eq!(stale.error_code.as_deref(), Some("version_mismatch"));
    assert!(stale.metadata.additional.contains_key("expected_version"));
    assert!(stale.metadata.additional.contains_key("current_version"));

    let v3_version = RawVersion::from_hash(&additional_text(&conditional, "version"));
    let delete = handler.handle_operation(
        ScimOperationRequest::delete("User", &user_id).with_expected_version(v3_version),
    );
    assert!(delete.success);

    let verify = handler.handle_operation(ScimOperationRequest::get("User", &user_id));
    assert!(!verify.success);
    assert!(verify.error_code.as_deref().unwrap().contains("NOT_FOUND"));
}

#[test]
fn operation_handler_versions_and_etags_are_exact() {
    let mut handler = handler();
    let create = handler.handle_operation(ScimOperationRequest::create(
        "User",
        user("exact", "E", "X").with("id", JsonValue::text("u-1")),
    ));
    assert!(create.success);
    let version = content_version(create.data.as_ref().expect("data"));
    assert_eq!(additional_text(&create, "version"), version);
    assert_eq!(additional_text(&create, "etag"), format!("W/\"{}\"", version));
    assert_eq!(create.metadata.resource_id.as_deref(), Some("u-1"));
    assert_eq!(create.metadata.resource_count, Some(1));
    assert_eq!(
        create.metadata.schemas,
        Some(vec!["urn:ietf:params:scim:schemas:core:2.0:User".to_string()])
    );
}

#[test]
fn operation_handler_request_id_and_tenant_are_reported() {
    let mut handler = handler();
    let tenant = TenantContext::new("acme".to_string(), "client".to_string());
    let request = ScimOperationRequest::create("User", user("t", "T", "U"))
        .with_tenant(tenant)
        .with_request_id("req-42");
    let response = handler.handle_operation(request);
    assert!(response.success);
    assert_eq!(response.metadata.request_id, "req-42");
    assert_eq!(response.metadata.tenant_id.as_deref(), Some("acme"));

    let generated = handler.handle_operation(ScimOperationRequest::list("User"));
    assert_eq!(generated.metadata.request_id.chars().count(), 36);
}

#[test]
fn operation_handler_tenants_are_isolated() {
    let mut handler = handler();
    let a = TenantContext::new("tenant-a".to_string(), "client".to_string());
    let b = TenantContext::new("tenant-b".to_string(), "client".to_string());
    let create = handler.handle_operation(
        ScimOperationRequest::create("User", user("alice", "A", "L")).with_tenant(a.clone()),
    );
    let id = created_id(&create);
    let from_b = handler.handle_operation(ScimOperationRequest::get("User", &id).with_tenant(b));
    assert!(!from_b.success);
    assert_eq!(from_b.error_code.as_deref(), Some("RESOURCE_NOT_FOUND"));
    let from_a = handler.handle_operation(ScimOperationRequest::get("User", &id).with_tenant(a));
    assert!(from_a.success);
}

#[test]
fn operation_handler_missing_fields_are_invalid_requests() {
    let mut handler = handler();
    let mut request = ScimOperationRequest::create("User", JsonValue::object());
    request.data = None;
    let response = handler.handle_operation(request);
    assert_eq!(response.error_code.as_deref(), Some("INVALID_REQUEST"));
    assert_eq!(
        response.error.as_deref(),
        Some("Invalid request: Missing data for create operation")
    );

    let mut request = ScimOperationRequest::update("User", "x", JsonValue::object());
    request.resource_id = None;
    let response = handler.handle_operation(request);
    assert_eq!(
        response.error.as_deref(),
        Some("Invalid request: Missing resource_id for update operation")
    );

    let mut request = ScimOperationRequest::search("User", "userName", JsonValue::text("x"));
    request.query = Some(ScimQuery::new());
    let response = handler.handle_operation(request);
    assert_eq!(
        response.error.as_deref(),
        Some("Invalid request: Missing search_attribute for search operation")
    );
}

#[test]
fn operation_handler_list_search_and_exists() {
    let mut handler = handler();
    for name in ["ann", "bob", "cid"] {
        let r = handler.handle_operation(ScimOperationRequest::create(
            "User",
            user(name, "G", "F").with("id", JsonValue::text(name)),
        ));
        assert!(r.success);
    }
    let list = handler.handle_operation(ScimOperationRequest::list("User"));
    assert!(list.success);
    assert_eq!(list.metadata.resource_count, Some(3));
    assert_eq!(list.metadata.total_results, Some(3));
    let items = list.data.as_ref().and_then(|d| d.as_array()).expect("array");
    assert_eq!(items[0].get_str("id").map(|s| s.as_str()), Some("ann"));
    assert_eq!(items[2].get_str("id").map(|s| s.as_str()), Some("cid"));

    let search = handler.handle_operation(ScimOperationRequest::search(
        "User",
        "userName",
        JsonValue::text("bob"),
    ));
    assert!(search.success);
    assert_eq!(search.metadata.resource_count, Some(1));

    let exists = handler.handle_operation(ScimOperationRequest::check_exists("User", "bob"));
    assert!(exists.success);
    assert!(matches!(exists.data, Some(JsonValue::Bool(true))));
    let missing = handler.handle_operation(ScimOperationRequest::check_exists("User", "zed"));
    assert!(matches!(missing.data, Some(JsonValue::Bool(false))));
}

#[test]
fn operation_handler_get_schema() {
    let mut handler = handler();
    let found = handler.handle_operation(ScimOperationRequest::get_schema(
        "urn:ietf:params:scim:schemas:core:2.0:Group",
    ));
    assert!(found.success);
    assert_eq!(
        found.data.as_ref().and_then(|d| d.get_str("name")).map(|s| s.as_str()),
        Some("Group")
    );
    let missing = handler.handle_operation(ScimOperationRequest::get_schema("urn:example:none"));
    assert_eq!(missing.error_code.as_deref(), Some("SCHEMA_NOT_FOUND"));
    assert_eq!(missing.error.as_deref(), Some("Schema not found: urn:example:none"));
}

#[test]
fn operation_handler_patch() {
    let mut handler = handler();
    let create = handler.handle_operation(ScimOperationRequest::create(
        "User",
        user("patchy", "P", "Y").with("id", JsonValue::text("p1")),
    ));
    assert!(create.success);
    let op = JsonValue::object()
        .with("op", JsonValue::text("replace"))
        .with("path", JsonValue::text("displayName"))
        .with("value", JsonValue::text("Patched"));
    let patch = JsonValue::object().with("Operations", JsonValue::Array(vec![op]));
    let request = ScimOperationRequest::update("User", "p1", patch);
    let context = RequestContext::with_id("req".to_string());
    let response = handle_patch(&mut handler, request, &context).expect("patched");
    assert!(response.success);
    assert_eq!(
        response.data.as_ref().and_then(|d| d.get_str("displayName")).map(|s| s.as_str()),
        Some("Patched")
    );
    assert_eq!(
        additional_text(&response, "version"),
        content_version(response.data.as_ref().expect("data"))
    );
}

#[test]
fn error_responses_carry_codes() {
    let r = create_error_response(ScimError::Validation("bad".to_string()), "r1".to_string());
    assert!(!r.success);
    assert_eq!(r.error_code.as_deref(), Some("VALIDATION_ERROR"));
    assert_eq!(r.error.as_deref(), Some("Validation error: bad"));
    assert_eq!(r.metadata.request_id, "r1");

    let r = create_error_response(
        ScimError::Provider(ProviderError::NotFound {
            resource_type: "User".to_string(),
            id: "7".to_string(),
        }),
        "r2".to_string(),
    );
    assert_eq!(r.error_code.as_deref(), Some("PROVIDER_ERROR"));
    assert_eq!(r.error.as_deref(), Some("Provider error: Resource not found: User with id '7'"));

    let r = create_error_response(ScimError::ProviderError("boom".to_string()), "r3".to_string());
    assert_eq!(r.error_code.as_deref(), Some("UNKNOWN_ERROR"));
}

#[test]
fn version_conflict_response_reports_both_versions() {
    let conflict = VersionConflict::standard_message(RawVersion::from_hash("3"), RawVersion::from_hash("5"));
    let r = create_version_conflict_response(
        conflict,
        "rid".to_string(),
        Some("User".to_string()),
        Some("u".to_string()),
    );
    assert!(!r.success);
    assert_eq!(r.error_code.as_deref(), Some("version_mismatch"));
    assert_eq!(
        r.error.as_deref(),
        Some("Resource was modified by another client. Expected version 3, current version 5")
    );
    assert_eq!(additional_text(&r, "expected_etag"), "W/\"3\"");
    assert_eq!(additional_text(&r, "current_etag"), "W/\"5\"");
    assert_eq!(r.metadata.additional.len(), 4);
}
