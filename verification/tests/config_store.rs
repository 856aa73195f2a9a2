use scim_server::collections::StrMap;
use scim_server::json::JsonValue;
use scim_server::multi_tenant::config_provider::{BulkConfigurationOperation, BulkOperationResult};
use scim_server::multi_tenant::config_store::{
    ConfigurationSections, DatabaseConfigurationState, audit_statement, backup_name, backup_note, backup_select_statement,
    backup_statement, backup_tenants, backup_text, backups_select_statement, bulk_outcome, count_answer, count_statement,
    create_check, delete_check, delete_outcome, delete_statement, exists_answer, exists_statement, insert_statement,
    invalid_section, restore_note, restore_wanted, restored_version, schema_check_refused, schema_statements,
    select_statement, update_check, update_outcome, update_statement,
};
use scim_server::multi_tenant::configuration::{ConfigurationError, TenantConfiguration};
use scim_server::multi_tenant::database::DatabaseResult;

fn config(tenant: &str) -> TenantConfiguration {
    TenantConfiguration::builder(tenant.to_string())
        .with_display_name(format!("Test Tenant {}", tenant))
        .build()
        .expect("valid")
}

fn sections() -> ConfigurationSections {
    ConfigurationSections {
        schema: "{\"s\":1}".to_string(),
        operational: "{\"o\":2}".to_string(),
        compliance: "{\"c\":3}".to_string(),
        branding: "{\"b\":4}".to_string(),
    }
}

fn row(pairs: &[(&str, JsonValue)]) -> StrMap<JsonValue> {
    let mut m = StrMap::new();
    for (k, v) in pairs {
        m.insert(k.to_string(), v.clone());
    }
    m
}

#[test]
fn schema_is_created_only_when_invalid() {
    assert!(schema_statements(true).is_empty());
    let created = schema_statements(false);
    assert_eq!(created.len(), 3);
    assert!(created[0].sql.contains("CREATE TABLE IF NOT EXISTS tenant_configurations"));
    assert!(created[1].sql.contains("CREATE TABLE IF NOT EXISTS configuration_audit_log"));
    assert!(created[2].sql.contains("CREATE TABLE IF NOT EXISTS configuration_backups"));
    assert!(created.iter().all(|s| s.tenant_id == "system" && s.params.is_empty()));
    assert_eq!(created[1].refused("disk full").message(), "Configuration validation failed: Failed to create audit table: disk full");
    assert_eq!(schema_check_refused("down").message(), "Configuration validation failed: Database schema validation failed: down");
}

#[test]
fn insert_statement_carries_every_column() {
    let mut c = config("test-tenant");
    c.created_at = 1_672_531_200_000_000;
    c.last_modified = 1_672_534_800_000_000;
    let s = insert_statement(&c, &sections()).expect("in range");
    assert!(s.sql.contains("INSERT INTO tenant_configurations"));
    assert_eq!(s.tenant_id, "test-tenant");
    assert_eq!(s.context, "Failed to create configuration");
    assert_eq!(
        s.params,
        vec![
            "test-tenant".to_string(),
            "Test Tenant test-tenant".to_string(),
            "2023-01-01T00:00:00+00:00".to_string(),
            "2023-01-01T01:00:00+00:00".to_string(),
            "1".to_string(),
            "{\"s\":1}".to_string(),
            "{\"o\":2}".to_string(),
            "{\"c\":3}".to_string(),
            "{\"b\":4}".to_string(),
        ]
    );
    c.created_at = i64::MAX;
    assert!(insert_statement(&c, &sections()).is_none());
}

#[test]
fn read_statements_name_the_tenant() {
    let s = select_statement("acme");
    assert!(s.sql.contains("WHERE tenant_id = ?"));
    assert_eq!(s.params, vec!["acme".to_string()]);
    let e = exists_statement("acme");
    assert_eq!(e.sql, "SELECT 1 FROM tenant_configurations WHERE tenant_id = ? LIMIT 1");
    assert_eq!(e.context, "Failed to check configuration existence");
    let n = count_statement();
    assert_eq!(n.sql, "SELECT COUNT(*) as count FROM tenant_configurations");
    assert_eq!(n.tenant_id, "system");
    assert!(n.params.is_empty());
}

#[test]
fn update_and_delete_statements() {
    let mut c = config("t1");
    c.version = 2;
    c.last_modified = 0;
    let u = update_statement(&c, &sections(), 1).expect("in range");
    assert!(u.sql.contains("WHERE tenant_id = ? AND version = ?"));
    assert_eq!(u.params[0], "Test Tenant t1");
    assert_eq!(u.params[1], "1970-01-01T00:00:00+00:00");
    assert_eq!(u.params[2], "2");
    assert_eq!(u.params[7], "t1");
    assert_eq!(u.params[8], "1");
    let d = delete_statement("t1", Some(3));
    assert_eq!(d.sql, "DELETE FROM tenant_configurations WHERE tenant_id = ? AND version = ?");
    assert_eq!(d.params, vec!["t1".to_string(), "3".to_string()]);
    let d2 = delete_statement("t1", None);
    assert_eq!(d2.sql, "DELETE FROM tenant_configurations WHERE tenant_id = ?");
    assert_eq!(d2.params, vec!["t1".to_string()]);
}

#[test]
fn audit_and_backup_statements() {
    let a = audit_statement("t1", "update", Some(1), Some(2), None, Some("Configuration updated"));
    assert_eq!(
        a.params,
        vec!["t1", "update", "1", "2", "system", "Configuration updated"].iter().map(|s| s.to_string()).collect::<Vec<_>>()
    );
    let b = audit_statement("t1", "delete", Some(4), None, Some("admin"), None);
    assert_eq!(b.params[3], "-1");
    assert_eq!(b.params[4], "admin");
    assert_eq!(b.params[5], "");
    let k = backup_statement("backup_1", "t1", "{}", 0, None).expect("in range");
    assert_eq!(k.params, vec!["backup_1", "t1", "{}", "1970-01-01T00:00:00+00:00", ""].iter().map(|s| s.to_string()).collect::<Vec<_>>());
    assert_eq!(k.context, "Failed to create backup");
    assert_eq!(backup_select_statement("b", "t").params, vec!["b".to_string(), "t".to_string()]);
    assert_eq!(backups_select_statement("b").tenant_id, "system");
    assert_eq!(backup_name(1_700_000_000), "backup_1700000000");
    assert_eq!(backup_name(-5), "backup_-5");
    assert_eq!(backup_note("b1"), "Configuration backed up with ID: b1");
    assert_eq!(restore_note("b1"), "Configuration restored from backup ID: b1");
}

#[test]
fn create_is_refused_for_an_existing_tenant() {
    let c = config("dup");
    match create_check(true, &c) {
        Err(ConfigurationError::Conflict { message }) => assert_eq!(message, "Configuration for tenant dup already exists"),
        other => panic!("unexpected {:?}", other),
    }
    assert!(create_check(false, &c).is_ok());
    let mut bad = config("bad");
    bad.operational.resource_limits.max_users = Some(0);
    match create_check(false, &bad) {
        Err(ConfigurationError::ValidationError { message }) => assert_eq!(message, "Maximum users must be greater than 0"),
        other => panic!("unexpected {:?}", other),
    }
}

#[test]
fn update_checks_presence_and_version() {
    let stored = config("test-tenant");
    let mut wanted = config("test-tenant");
    wanted.display_name = "Updated Tenant".to_string();
    match update_check(wanted.clone(), None, 5) {
        Err(ConfigurationError::NotFound { tenant_id }) => assert_eq!(tenant_id, "test-tenant"),
        other => panic!("unexpected {:?}", other),
    }
    let mut stale = wanted.clone();
    stale.version = 7;
    match update_check(stale, Some(&stored), 5) {
        Err(ConfigurationError::VersionMismatch { expected, actual }) => {
            assert_eq!(expected, 1);
            assert_eq!(actual, 7);
        },
        other => panic!("unexpected {:?}", other),
    }
    let updated = update_check(wanted, Some(&stored), 42).expect("updated");
    assert_eq!(updated.version, 2);
    assert_eq!(updated.last_modified, 42);
    assert_eq!(updated.display_name, "Updated Tenant");
    assert!(update_outcome(1, 1, 1).is_ok());
    match update_outcome(0, 1, 1) {
        Err(ConfigurationError::VersionMismatch { expected, actual }) => assert_eq!((expected, actual), (1, 1)),
        other => panic!("unexpected {:?}", other),
    }
}

#[test]
fn delete_checks_presence_and_rows() {
    let stored = config("gone");
    assert_eq!(delete_check("gone", Some(&stored)).expect("present"), 1);
    assert!(matches!(delete_check("gone", None), Err(ConfigurationError::NotFound { .. })));
    assert!(delete_outcome("gone", 1).is_ok());
    match delete_outcome("gone", 0) {
        Err(e) => assert_eq!(e.message(), "Configuration not found for tenant: gone"),
        Ok(()) => panic!("expected an error"),
    }
}

#[test]
fn answers_are_read() {
    let empty = DatabaseResult::new();
    assert!(!exists_answer(&empty));
    assert_eq!(count_answer(&empty), 0);
    let counted = DatabaseResult::with_rows(vec![row(&[("count", JsonValue::Number("5".to_string()))])]);
    assert!(exists_answer(&counted));
    assert_eq!(count_answer(&counted), 5);
    let wrong = DatabaseResult::with_rows(vec![row(&[("count", JsonValue::text("5"))])]);
    assert_eq!(count_answer(&wrong), 0);
    assert_eq!(restored_version(None), 1);
    assert_eq!(restored_version(Some(4)), 5);
    assert!(restore_wanted(true, true));
    assert!(restore_wanted(false, false));
    assert!(!restore_wanted(false, true));
}

#[test]
fn backups_are_read() {
    match backup_text(&DatabaseResult::new(), "b1", "t1") {
        Err(ConfigurationError::NotFound { tenant_id }) => assert_eq!(tenant_id, "backup b1 for tenant t1"),
        other => panic!("unexpected {:?}", other),
    }
    let held = DatabaseResult::with_rows(vec![row(&[("configuration", JsonValue::text("{\"a\":1}"))])]);
    assert_eq!(backup_text(&held, "b1", "t1").expect("text"), "{\"a\":1}");
    let broken = DatabaseResult::with_rows(vec![row(&[("configuration", JsonValue::Null)])]);
    match backup_text(&broken, "b1", "t1") {
        Err(ConfigurationError::ValidationError { message }) => assert_eq!(message, "Invalid backup data in database row"),
        other => panic!("unexpected {:?}", other),
    }
    let listing = DatabaseResult::with_rows(vec![
        row(&[("tenant_id", JsonValue::text("a"))]),
        row(&[("tenant_id", JsonValue::Null)]),
        row(&[("tenant_id", JsonValue::text("c"))]),
    ]);
    assert_eq!(backup_tenants(&listing), vec!["a".to_string(), "".to_string(), "c".to_string()]);
    assert_eq!(invalid_section("schema_config").message(), "Configuration validation failed: Invalid schema_config in database row");
}

#[test]
fn cache_serves_fresh_entries_only() {
    let mut state = DatabaseConfigurationState::new();
    assert_eq!(state.cache_ttl(), 300);
    assert!(state.get_from_cache_at("t1", 0).is_none());
    state.cache_configuration_at(config("t1"), 1_000_000);
    assert_eq!(state.cached_items(), 1);
    assert_eq!(state.get_from_cache_at("t1", 1_000_000).expect("fresh").tenant_id, "t1");
    assert!(state.get_from_cache_at("t1", 300_999_999).is_some());
    assert!(state.get_from_cache_at("t1", 301_000_000).is_none());
    assert!(state.get_from_cache_at("t1", -5_000_000).is_some());
    assert!(state.get_from_cache_at("t2", 1_000_000).is_none());
    state.invalidate_cache("t1");
    assert!(state.get_from_cache_at("t1", 1_000_000).is_none());
    state.cache_configuration_at(config("t2"), 0);
    state.clear_cache();
    assert_eq!(state.cached_items(), 0);
    let never = DatabaseConfigurationState::new_with_cache_ttl(0);
    let mut n = never;
    n.cache_configuration_at(config("t3"), 0);
    assert!(n.get_from_cache_at("t3", 0).is_none());
}

#[test]
fn statistics_count_creates_and_deletes() {
    let mut state = DatabaseConfigurationState::new();
    assert_eq!(state.get_configuration_stats().total_configurations, 0);
    state.update_stats_at("create", 10);
    state.update_stats_at("create", 11);
    state.update_stats_at("get", 12);
    assert_eq!(state.get_configuration_stats().total_configurations, 2);
    assert_eq!(state.get_configuration_stats().newest_configuration, Some(12));
    state.update_stats_at("delete", 13);
    state.update_stats_at("delete", 14);
    state.update_stats_at("delete", 15);
    assert_eq!(state.get_configuration_stats().total_configurations, 0);
    state.update_stats("create");
    assert_eq!(state.get_configuration_stats().total_configurations, 1);
}

#[test]
fn bulk_outcomes_report_the_operation() {
    let op = BulkConfigurationOperation::Delete { tenant_id: "t9".to_string(), expected_version: None };
    match bulk_outcome(&op, Ok(None)) {
        BulkOperationResult::Success { tenant_id, operation, configuration } => {
            assert_eq!(tenant_id, "t9");
            assert_eq!(operation, "delete");
            assert!(configuration.is_none());
        },
        other => panic!("unexpected {:?}", other),
    }
    let create = BulkConfigurationOperation::Create(config("t8"));
    match bulk_outcome(&create, Err(ConfigurationError::Conflict { message: "x".to_string() })) {
        BulkOperationResult::Error { tenant_id, operation, error } => {
            assert_eq!(tenant_id, "t8");
            assert_eq!(operation, "create");
            assert_eq!(error, "Configuration conflict: x");
        },
        other => panic!("unexpected {:?}", other),
    }
}
