use scim_server::json::JsonValue;
use scim_server::multi_tenant::database::{
    DatabaseError, DatabaseParameter, DatabaseResourceProvider, DatabaseResult, DatabaseTransaction, DbRecord,
    InMemoryDatabase,
};
use scim_server::resource::{EnhancedRequestContext, Resource, TenantContext, TenantPermissions};

fn context(tenant: &str) -> EnhancedRequestContext {
    EnhancedRequestContext::with_generated_id(TenantContext::new(tenant.to_string(), "client".to_string()))
}

fn doc(id: &str, user_name: &str) -> JsonValue {
    JsonValue::object()
        .with("id", JsonValue::text(id))
        .with("userName", JsonValue::text(user_name))
}

#[test]
fn test_in_memory_database_basic_operations() {
    let db = InMemoryDatabase::new();
    assert_eq!(db.tenant_count(), 0);
    assert_eq!(db.get_resource_count("test-tenant", "User"), 0);
    assert!(db.validate_isolation().is_ok());
}

#[test]
fn test_database_provider_create_and_get() {
    let mut provider = DatabaseResourceProvider::new_in_memory().expect("provider");
    let ctx = context("test-tenant");
    let email = JsonValue::object()
        .with("value", JsonValue::text("test@example.com"))
        .with("primary", JsonValue::Bool(true));
    let data = JsonValue::object()
        .with("userName", JsonValue::text("testuser"))
        .with("displayName", JsonValue::text("Test User"))
        .with("emails", JsonValue::Array(vec![email]));
    let created = provider.create_resource("test-tenant", "User", data, &ctx).expect("created");
    assert_eq!(created.get_username().map(|s| s.as_str()), Some("testuser"));
    let id = created.get_id().expect("id").clone();
    assert_eq!(id.chars().count(), 36);

    let retrieved = provider.get_resource("test-tenant", "User", &id, &ctx).expect("read").expect("found");
    assert_eq!(retrieved.get_username().map(|s| s.as_str()), Some("testuser"));
    assert_eq!(retrieved.get_id(), Some(&id));
}

#[test]
fn test_database_provider_tenant_isolation() {
    let mut provider = DatabaseResourceProvider::new_in_memory().expect("provider");
    let ctx_a = context("tenant-a");
    let ctx_b = context("tenant-b");
    provider.create_resource("tenant-a", "User", doc("user1", "userA"), &ctx_a).expect("a");
    provider.create_resource("tenant-b", "User", doc("user1", "userB"), &ctx_b).expect("b");

    let result = provider.get_resource("tenant-b", "User", "user1", &ctx_a);
    assert!(matches!(result, Err(DatabaseError::TenantValidation { .. })));

    let user_a = provider.get_resource("tenant-a", "User", "user1", &ctx_a).expect("read").expect("found");
    assert_eq!(user_a.get_username().map(|s| s.as_str()), Some("userA"));
}

#[test]
fn test_database_provider_update_and_delete() {
    let mut provider = DatabaseResourceProvider::new_in_memory().expect("provider");
    let ctx = context("test-tenant");
    provider.create_resource("test-tenant", "User", doc("user1", "original"), &ctx).expect("created");

    let updated = provider
        .update_resource("test-tenant", "User", "user1", doc("user1", "updated"), &ctx)
        .expect("updated");
    assert_eq!(updated.get_username().map(|s| s.as_str()), Some("updated"));

    let retrieved = provider.get_resource("test-tenant", "User", "user1", &ctx).expect("read");
    assert_eq!(
        retrieved.expect("found").get_username().map(|s| s.as_str()),
        Some("updated")
    );

    provider.delete_resource("test-tenant", "User", "user1", &ctx).expect("deleted");
    let deleted = provider.get_resource("test-tenant", "User", "user1", &ctx).expect("read");
    assert!(deleted.is_none());

    let again = provider.delete_resource("test-tenant", "User", "user1", &ctx);
    assert!(matches!(again, Err(DatabaseError::ResourceNotFound { .. })));
}

#[test]
fn test_database_provider_list_and_count() {
    let mut provider = DatabaseResourceProvider::new_in_memory().expect("provider");
    let ctx = context("test-tenant");
    assert_eq!(provider.get_resource_count("test-tenant", "User", &ctx).expect("count"), 0);
    assert!(provider.list_resources("test-tenant", "User", None, &ctx).expect("list").is_empty());

    for i in 1..=3 {
        let id = format!("user{}", i);
        provider.create_resource("test-tenant", "User", doc(&id, &id), &ctx).expect("created");
    }
    assert_eq!(provider.get_resource_count("test-tenant", "User", &ctx).expect("count"), 3);
    let users = provider.list_resources("test-tenant", "User", None, &ctx).expect("list");
    assert_eq!(users.len(), 3);
    assert_eq!(users[0].get_id().map(|s| s.as_str()), Some("user1"));
}

#[test]
fn test_database_provider_find_by_attribute() {
    let mut provider = DatabaseResourceProvider::new_in_memory().expect("provider");
    let ctx = context("test-tenant");
    let data = doc("user1", "testuser").with("email", JsonValue::text("test@example.com"));
    provider.create_resource("test-tenant", "User", data, &ctx).expect("created");

    let by_name = provider
        .find_resource_by_attribute("test-tenant", "User", "userName", &JsonValue::text("testuser"), &ctx)
        .expect("search");
    assert_eq!(by_name.expect("found").get_id().map(|s| s.as_str()), Some("user1"));

    let by_email = provider
        .find_resource_by_attribute("test-tenant", "User", "email", &JsonValue::text("test@example.com"), &ctx)
        .expect("search");
    assert!(by_email.is_some());

    let none = provider
        .find_resource_by_attribute("test-tenant", "User", "userName", &JsonValue::text("nonexistent"), &ctx)
        .expect("search");
    assert!(none.is_none());
}

#[test]
fn test_database_provider_permission_validation() {
    let mut provider = DatabaseResourceProvider::new_in_memory().expect("provider");
    let mut permissions = TenantPermissions::default();
    permissions.can_create = false;
    let tenant = TenantContext::new("test-tenant".to_string(), "client".to_string()).with_permissions(permissions);
    let ctx = EnhancedRequestContext::with_generated_id(tenant);
    let result = provider.create_resource(
        "test-tenant",
        "User",
        JsonValue::object().with("userName", JsonValue::text("testuser")),
        &ctx,
    );
    assert!(matches!(result, Err(DatabaseError::TenantValidation { .. })));
}

#[test]
fn test_database_provider_tenant_limits() {
    let mut provider = DatabaseResourceProvider::new_in_memory().expect("provider");
    let mut permissions = TenantPermissions::default();
    permissions.max_users = Some(1);
    let tenant = TenantContext::new("test-tenant".to_string(), "client".to_string()).with_permissions(permissions);
    let ctx = EnhancedRequestContext::with_generated_id(tenant);

    assert!(provider.create_resource("test-tenant", "User", doc("user1", "user1"), &ctx).is_ok());
    let second = provider.create_resource("test-tenant", "User", doc("user2", "user2"), &ctx);
    match second {
        Err(DatabaseError::TenantValidation { message }) => assert_eq!(message, "User limit exceeded: 1/1"),
        other => panic!("unexpected: {:?}", other),
    }
}

#[test]
fn test_database_provider_stats() {
    let mut provider = DatabaseResourceProvider::new_in_memory().expect("provider");
    let ctx = context("test-tenant");
    let stats = provider.get_stats();
    assert_eq!(stats.tenant_count, 0);
    assert_eq!(stats.total_resources, 0);

    provider.create_resource("test-tenant", "User", doc("user1", "user1"), &ctx).expect("user");
    let group = JsonValue::object()
        .with("id", JsonValue::text("group1"))
        .with("displayName", JsonValue::text("group1"));
    provider.create_resource("test-tenant", "Group", group, &ctx).expect("group");

    let stats = provider.get_stats();
    assert_eq!(stats.tenant_count, 1);
    assert_eq!(stats.total_resources, 2);
    assert_eq!(stats.resource_counts.get("User"), Some(&1));
    assert_eq!(stats.resource_counts.get("Group"), Some(&1));
}

#[test]
fn database_tenant_mismatch_message() {
    let provider = DatabaseResourceProvider::new_in_memory().expect("provider");
    let ctx = context("tenant-a");
    match provider.get_resource("tenant-b", "User", "x", &ctx) {
        Err(e) => assert_eq!(
            e.message(),
            "Tenant validation failed: Tenant mismatch: context has 'tenant-a', operation requested 'tenant-b'"
        ),
        Ok(_) => panic!("expected a tenant error"),
    }
}

#[test]
fn database_select_rows_and_isolation() {
    let mut db = InMemoryDatabase::new();
    let record = DbRecord {
        resource: Resource::new("User".to_string(), doc("u1", "one")),
        created_at: "2023-01-01T00:00:00Z".to_string(),
        updated_at: "2023-01-01T00:00:00Z".to_string(),
        version: 1,
    };
    db.put("t1", "User", "u1", record);
    let rows = db.execute_query("SELECT * FROM resources", &[], "t1").expect("query");
    assert_eq!(rows.affected_rows, 1);
    let row = rows.first_row().expect("row");
    assert_eq!(row.get("id").and_then(|v| v.as_str()).map(|s| s.as_str()), Some("u1"));
    assert_eq!(row.get("resource_type").and_then(|v| v.as_str()).map(|s| s.as_str()), Some("User"));
    let other = db.execute_query("DELETE FROM resources", &[], "t1").expect("query");
    assert!(other.is_empty());
    assert!(db.validate_isolation().is_ok());

    let mut provider = DatabaseResourceProvider::new_in_memory().expect("provider");
    let ctx = context("t1");
    provider.create_resource("t1", "User", doc("u1", "one"), &ctx).expect("created");
    assert!(provider.database().validate_isolation().is_ok());

    let foreign = doc("u2", "two").with("tenant_id", JsonValue::text("t9"));
    provider.create_resource("t1", "User", foreign, &ctx).expect("created");
    match provider.database().validate_isolation() {
        Err(DatabaseError::IsolationViolation { message }) => {
            assert_eq!(message, "Resource User/u2 in tenant t1 contains tenant_id \"t9\"")
        }
        other => panic!("unexpected: {:?}", other),
    }
}

#[test]
fn database_parameters_and_transactions() {
    assert_eq!((-42i64).as_string(), "-42");
    assert_eq!(i64::MIN.as_string(), "-9223372036854775808");
    assert_eq!(7i64.parameter_type(), "integer");
    assert_eq!("x".to_string().parameter_type(), "string");
    let t = DatabaseTransaction::new("t".to_string());
    assert!(t.commit().is_ok());
    assert!(DatabaseTransaction::new("t".to_string()).rollback().is_ok());
    let r = DatabaseResult::new();
    assert!(r.is_empty());
    assert!(r.first_row().is_none());
    let e = DatabaseError::ResourceNotFound {
        resource_type: "User".to_string(),
        id: "1".to_string(),
        tenant_id: "t".to_string(),
    };
    assert_eq!(e.message(), "Resource not found: User/1 in tenant t");
}

#[test]
fn rows_are_read_as_resources() {
    let mut row = scim_server::collections::StrMap::new();
    assert!(matches!(
        DatabaseResourceProvider::row_to_resource(&row),
        Err(DatabaseError::QueryFailed { .. })
    ));
    row.insert("resource_type".to_string(), JsonValue::text("User"));
    let empty = DatabaseResourceProvider::row_to_resource(&row).expect("typed");
    assert_eq!(empty.resource_type, "User");
    assert!(empty.data.is_object());
    row.insert("data".to_string(), JsonValue::object().with("userName", JsonValue::text("x")));
    let full = DatabaseResourceProvider::row_to_resource(&row).expect("typed");
    assert_eq!(full.data.get_str("userName").map(|s| s.as_str()), Some("x"));
    row.insert("resource_type".to_string(), JsonValue::Bool(true));
    match DatabaseResourceProvider::row_to_resource(&row) {
        Err(e) => assert_eq!(e.message(), "Query execution failed: Missing resource_type in database row"),
        Ok(_) => panic!("expected an error"),
    }
}

#[test]
fn test_in_memory_database_isolation_validation() {
    let db = InMemoryDatabase::new();
    let tenant_a_context = TenantContext::new("tenant-a".to_string(), "client-a".to_string());
    let context_a = EnhancedRequestContext::with_generated_id(tenant_a_context);
    let mut provider = DatabaseResourceProvider::new(db).expect("provider");
    provider
        .create_resource("tenant-a", "User", doc("user1", "userA"), &context_a)
        .expect("created");
    assert!(provider.database().validate_isolation().is_ok());
}

fn strings(items: &[&str]) -> Vec<String> {
    items.iter().map(|s| s.to_string()).collect()
}

#[test]
fn test_database_direct_operations() {
    let mut database = InMemoryDatabase::new();

    let insert_sql = r#"
            INSERT INTO tenant_configurations
            (tenant_id, display_name, created_at, last_modified, version,
             schema_config, operational_config, compliance_config, branding_config)
            VALUES (?, ?, ?, ?, ?, ?, ?, ?, ?)
        "#;
    let params: Vec<String> = vec![
        "test-tenant".to_string(),
        "Test Tenant".to_string(),
        "2023-01-01T00:00:00Z".to_string(),
        "2023-01-01T00:00:00Z".to_string(),
        1i64.as_string(),
        "{}".to_string(),
        "{}".to_string(),
        "{}".to_string(),
        "{}".to_string(),
    ];
    let insert_result = database.execute_query(insert_sql, &params, "test-tenant").unwrap();
    assert_eq!(insert_result.affected_rows, 1);

    let select_sql = r#"
            SELECT tenant_id, display_name, created_at, last_modified, version,
                   schema_config, operational_config, compliance_config, branding_config
            FROM tenant_configurations
            WHERE tenant_id = ?
        "#;
    let select_params: Vec<String> = vec!["test-tenant".to_string()];
    let select_result = database.execute_query(select_sql, &select_params, "test-tenant").unwrap();
    assert_eq!(select_result.rows.len(), 1);
    assert_eq!(select_result.rows[0].get("tenant_id").unwrap().as_str().unwrap(), "test-tenant");

    let update_sql = r#"
            UPDATE tenant_configurations
            SET display_name = ?, last_modified = ?, version = ?,
                schema_config = ?, operational_config = ?,
                compliance_config = ?, branding_config = ?
            WHERE tenant_id = ? AND version = ?
        "#;
    let update_params: Vec<String> = vec![
        "Updated Tenant".to_string(),
        "2023-01-01T01:00:00Z".to_string(),
        2i64.as_string(),
        "{}".to_string(),
        "{}".to_string(),
        "{}".to_string(),
        "{}".to_string(),
        "test-tenant".to_string(),
        1i64.as_string(),
    ];
    let update_result = database.execute_query(update_sql, &update_params, "test-tenant").unwrap();
    assert_eq!(update_result.affected_rows, 1);

    let select_after_result = database.execute_query(select_sql, &select_params, "test-tenant").unwrap();
    assert_eq!(select_after_result.rows.len(), 1);
    let row = &select_after_result.rows[0];
    assert_eq!(row.get("tenant_id").unwrap().as_str().unwrap(), "test-tenant");
    assert_eq!(row.get("display_name").unwrap().as_str().unwrap(), "Updated Tenant");
    assert_eq!(row.get("version").unwrap().as_i64().unwrap(), 2);
}

#[test]
fn configuration_table_versions_count_and_delete() {
    let mut database = InMemoryDatabase::new();
    let insert_sql = "INSERT INTO tenant_configurations (tenant_id, display_name, created_at, last_modified, version, schema_config, operational_config, compliance_config, branding_config) VALUES (?, ?, ?, ?, ?, ?, ?, ?, ?)";
    let row = strings(&["a", "A", "t0", "t0", "1", "{}", "{}", "{}", "{}"]);
    assert_eq!(database.execute_query(insert_sql, &row, "a").unwrap().affected_rows, 1);
    match database.execute_query(insert_sql, &row, "a") {
        Err(DatabaseError::QueryFailed { message }) => {
            assert_eq!(message, "Duplicate configuration for tenant a")
        }
        _ => panic!("expected a duplicate error"),
    }
    match database.execute_query(insert_sql, &strings(&["b"]), "b") {
        Err(DatabaseError::QueryFailed { message }) => assert_eq!(message, "Wrong number of parameters"),
        _ => panic!("expected an arity error"),
    }
    let update_sql = "UPDATE tenant_configurations SET display_name = ?, last_modified = ?, version = ?, schema_config = ?, operational_config = ?, compliance_config = ?, branding_config = ? WHERE tenant_id = ? AND version = ?";
    let stale = strings(&["X", "t1", "3", "{}", "{}", "{}", "{}", "a", "2"]);
    assert_eq!(database.execute_query(update_sql, &stale, "a").unwrap().affected_rows, 0);
    let count = database.execute_query("SELECT COUNT(*) as count FROM tenant_configurations", &[], "system").unwrap();
    assert_eq!(count.rows.len(), 1);
    assert_eq!(count.rows[0].get("count").unwrap().as_i64(), Some(1));
    let exists = database
        .execute_query("SELECT 1 FROM tenant_configurations WHERE tenant_id = ? LIMIT 1", &strings(&["a"]), "a")
        .unwrap();
    assert_eq!(exists.rows.len(), 1);
    let delete_sql = "DELETE FROM tenant_configurations WHERE tenant_id = ? AND version = ?";
    assert_eq!(database.execute_query(delete_sql, &strings(&["a", "2"]), "a").unwrap().affected_rows, 0);
    assert_eq!(database.execute_query(delete_sql, &strings(&["a", "1"]), "a").unwrap().affected_rows, 1);
    let missing = database
        .execute_query("SELECT 1 FROM tenant_configurations WHERE tenant_id = ? LIMIT 1", &strings(&["a"]), "a")
        .unwrap();
    assert_eq!(missing.rows.len(), 0);
}
