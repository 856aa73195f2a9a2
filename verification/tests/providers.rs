use scim_server::collections::StrMap;
use scim_server::json::JsonValue;
use scim_server::multi_tenant::config_database::{
    configuration_listing, configuration_row, configuration_row_from, listing_needs_count, listing_result,
};
use scim_server::multi_tenant::config_provider::{ConfigurationQuery, SortOrder};
use scim_server::multi_tenant::configuration::ConfigurationError;
use scim_server::providers::conditional::ConditionalOperations;
use scim_server::providers::error::{ProviderError, RawVersion};
use scim_server::providers::metadata::ScimMetadataManager;
use scim_server::providers::patch::ScimPatchOperations;
use scim_server::providers::standard::{ConditionalResult, StandardResourceProvider};
use scim_server::providers::tenant::MultiTenantProvider;
use scim_server::resource::{ListQuery, RequestContext, Resource, TenantContext, TenantPermissions};
use scim_server::text::decimal_string;

fn user(id: &str, name: &str) -> JsonValue {
    JsonValue::object()
        .with("id", JsonValue::text(id))
        .with("userName", JsonValue::text(name))
}

fn content_version(doc: &JsonValue) -> String {
    std::hash::BuildHasher::hash_one(
        &std::hash::BuildHasherDefault::<std::collections::hash_map::DefaultHasher>::default(),
        doc.to_json_string().as_str(),
    )
    .to_string()
}

fn ctx() -> RequestContext {
    RequestContext::with_id("r".to_string())
}

#[test]
fn provider_get_after_create_and_versions_follow_content() {
    let mut p = StandardResourceProvider::new_in_memory();
    let c = ctx();
    let created = p.create_resource("User", user("u1", "alice"), &c).expect("created");
    let v1 = content_version(&created.resource().data);
    assert_eq!(created.version().as_str(), v1);
    let got = p.get_resource("User", "u1", &c).expect("read").expect("found");
    assert_eq!(got.version().as_str(), v1);
    assert_eq!(got.resource().get_username().map(|s| s.as_str()), Some("alice"));
    let meta = got.resource().data.get("meta").expect("meta");
    let meta_version = format!("W/\"{}\"", content_version(&user("u1", "alice")));
    assert_eq!(meta.get_str("version").map(|s| s.as_str()), Some(meta_version.as_str()));
    assert_eq!(
        meta.get_str("location").map(|s| s.as_str()),
        Some("https://example.com/scim/v2/User/u1")
    );

    let updated = p.update_resource("User", "u1", user("u1", "alicia"), None, &c).expect("updated");
    assert_eq!(updated.version().as_str(), content_version(&updated.resource().data));
    assert_ne!(updated.version().as_str(), v1);
    let got = p.get_resource("User", "u1", &c).expect("read").expect("found");
    assert_eq!(got.resource().get_username().map(|s| s.as_str()), Some("alicia"));
}

#[test]
fn provider_stale_writes_are_refused_and_change_nothing() {
    let mut p = StandardResourceProvider::new_in_memory();
    let c = ctx();
    let created = p.create_resource("User", user("u1", "alice"), &c).expect("created");
    let v1 = created.version().as_str().to_string();
    let updated = p.update_resource("User", "u1", user("u1", "bob"), None, &c).expect("updated");
    let v2 = updated.version().as_str().to_string();
    let stale = RawVersion::from_hash(&v1);
    let r = p.update_resource("User", "u1", user("u1", "carol"), Some(&stale), &c);
    match r {
        Err(ProviderError::PreconditionFailed { message }) => {
            assert_eq!(message, format!("Version mismatch: expected {}, got {}", v1, v2))
        }
        other => panic!("unexpected: {:?}", other),
    }
    assert!(p.delete_resource("User", "u1", Some(&stale), &c).is_err());
    let got = p.get_resource("User", "u1", &c).expect("read").expect("still there");
    assert_eq!(got.resource().get_username().map(|s| s.as_str()), Some("bob"));
    assert_eq!(got.version().as_str(), v2);
}

#[test]
fn provider_duplicate_user_name_is_refused() {
    let mut p = StandardResourceProvider::new_in_memory();
    let c = ctx();
    p.create_resource("User", user("u1", "same"), &c).expect("created");
    let r = p.create_resource("User", user("u2", "same"), &c);
    assert!(matches!(r, Err(ProviderError::DuplicateAttribute { .. })));
}

#[test]
fn provider_delete_then_get_is_none_and_clear_empties() {
    let mut p = StandardResourceProvider::new_in_memory();
    let c = ctx();
    p.create_resource("User", user("u1", "a"), &c).expect("created");
    p.create_resource("User", user("u2", "b"), &c).expect("created");
    p.delete_resource("User", "u1", None, &c).expect("deleted");
    assert!(p.get_resource("User", "u1", &c).expect("read").is_none());
    assert_eq!(p.list_resources_in_tenant("default", "User").len(), 1);
    p.clear();
    assert_eq!(p.count_resources_for_tenant("default", "User"), 0);
    let again = p.create_resource("User", user("u3", "c"), &c).expect("created");
    assert_eq!(again.version().as_str(), content_version(&again.resource().data));
}

#[test]
fn provider_list_paginates_in_creation_order() {
    let mut p = StandardResourceProvider::new_in_memory();
    let c = ctx();
    for (id, name) in [("a", "an"), ("b", "bo"), ("c", "cy"), ("d", "di")] {
        p.create_resource("User", user(id, name), &c).expect("created");
    }
    let q = ListQuery::new().with_start_index(2).with_count(2);
    let page = p.list_resources("User", Some(&q), &c).expect("listed");
    assert_eq!(page.len(), 2);
    assert_eq!(page[0].resource().get_id().map(|s| s.as_str()), Some("b"));
    assert_eq!(page[1].resource().get_id().map(|s| s.as_str()), Some("c"));
}

#[test]
fn provider_refuses_operations_the_tenant_may_not_perform() {
    let mut p = StandardResourceProvider::new_in_memory();
    let mut perms = TenantPermissions::default();
    perms.can_create = false;
    let tenant = TenantContext::new("t".to_string(), "c".to_string()).with_permissions(perms);
    let c = RequestContext::with_tenant("r".to_string(), tenant);
    let r = p.create_resource("User", user("u1", "a"), &c);
    assert!(matches!(r, Err(ProviderError::Internal { .. })));
    assert_eq!(p.count_resources_for_tenant("t", "User"), 0);
}

#[test]
fn conditional_operations_check_the_version_first() {
    let mut p = StandardResourceProvider::new_in_memory();
    let c = ctx();
    let created = p.create_resource("User", user("u1", "a"), &c).expect("created");
    let v1 = created.version().as_str().to_string();
    let wrong = RawVersion::from_hash("9");
    match p.conditional_update_resource("User", "u1", user("u1", "b"), &wrong, &c) {
        Ok(ConditionalResult::VersionMismatch(conflict)) => {
            assert_eq!(conflict.current.as_str(), v1);
            assert_eq!(
                conflict.message,
                format!("Resource was modified by another client. Expected version 9, current version {}", v1)
            );
        }
        other => panic!("unexpected: {:?}", other),
    }
    let right = RawVersion::from_hash(&v1);
    let v2 = content_version(&user("u1", "b"));
    match p.conditional_update_resource("User", "u1", user("u1", "b"), &right, &c) {
        Ok(ConditionalResult::Success(vr)) => assert_eq!(vr.version().as_str(), v2),
        other => panic!("unexpected: {:?}", other),
    }
    assert!(matches!(
        p.conditional_delete_resource("User", "zz", &right, &c),
        Ok(ConditionalResult::NotFound)
    ));
    assert_eq!(p.check_resource_version("User", "u1", &RawVersion::from_hash(&v2), &c).expect("read"), Some(true));
    assert_eq!(
        p.get_resource_version("User", "u1", &c).expect("read").map(|v| v.as_str().to_string()),
        Some(v2.clone())
    );
    assert!(p.is_valid_version(&RawVersion::from_hash("abc")));
    assert!(!p.is_valid_version(&RawVersion::from_hash("  ")));
    let named = p.create_version_conflict(RawVersion::from_hash("1"), RawVersion::from_hash("2"), Some("User/u1"));
    assert_eq!(
        named.message,
        "Resource User/u1 was modified by another client. Expected version 1, current version 2"
    );
}

#[test]
fn tenant_helpers() {
    let p = StandardResourceProvider::new_in_memory();
    assert_eq!(p.tenant_scoped_key("t1", "User", "42"), "tenant:t1:User:42");
    assert_eq!(p.tenant_scoped_prefix("t1", "User"), "tenant:t1:User:");
    assert_eq!(p.normalize_tenant_id("  My Tenant!_1 "), "my-tenant_1");
    assert!(p.is_valid_tenant_id("acme-corp_1"));
    assert!(!p.is_valid_tenant_id("-acme"));
    assert!(!p.is_valid_tenant_id("acme-"));
    assert!(!p.is_valid_tenant_id("   "));
    assert!(!p.is_valid_tenant_id("has space"));
    assert!(!p.is_valid_tenant_id(&"a".repeat(65)));
    let single = ctx();
    let multi = RequestContext::with_tenant(
        "r".to_string(),
        TenantContext::new("acme".to_string(), "client-9".to_string()),
    );
    assert_eq!(p.effective_tenant_id(&single), "default");
    assert_eq!(p.tenant_error_message(&single, "boom"), "boom");
    assert_eq!(p.tenant_error_message(&multi, "boom"), "[Tenant: acme] boom");
    assert!(!p.same_tenant(&single, &multi));
    assert_eq!(p.get_client_id(&multi), Some("client-9"));
    assert!(p.is_valid_tenant_context(&multi, true));
    assert!(!p.is_valid_tenant_context(&single, true));
    assert_eq!(p.generate_tenant_resource_id("t", "User").chars().count(), 36);
}

#[test]
fn metadata_helpers() {
    let p = StandardResourceProvider::new_in_memory();
    assert_eq!(
        p.generate_location_uri("https://x.org/scim//", "User", "7"),
        "https://x.org/scim/User/7"
    );
    let meta = JsonValue::object()
        .with("resourceType", JsonValue::text("User"))
        .with("location", JsonValue::text("https://x.org/User/7"))
        .with("version", JsonValue::text("W/\"3\""))
        .with("created", JsonValue::text("2024-01-01T00:00:00Z"));
    let mut r = Resource::new("User".to_string(), JsonValue::object().with("meta", meta));
    assert!(p.has_valid_metadata(&r));
    assert_eq!(p.extract_resource_version(&r), Some("W/\"3\"".to_string()));
    assert_eq!(p.get_creation_time(&r), Some("2024-01-01T00:00:00Z".to_string()));
    assert_eq!(p.get_modification_time(&r), None);
    p.strip_metadata(&mut r);
    assert!(!p.has_valid_metadata(&r));
    assert!(r.data.get("meta").is_none());
}

#[test]
fn json_text_and_integers() {
    let v = JsonValue::object()
        .with("a", JsonValue::Array(vec![JsonValue::Null, JsonValue::Bool(true)]))
        .with("s", JsonValue::text("q\"\\\n\u{1}"))
        .with("n", JsonValue::Number("12".to_string()));
    assert_eq!(v.to_json_string(), "{\"a\":[null,true],\"s\":\"q\\\"\\\\\\n\\u0001\",\"n\":12}");
    assert_eq!(JsonValue::Number("-9223372036854775808".to_string()).as_i64(), Some(i64::MIN));
    assert_eq!(JsonValue::Number("9223372036854775808".to_string()).as_i64(), None);
    assert_eq!(JsonValue::Number("1.5".to_string()).as_i64(), None);
    assert_eq!(JsonValue::Number("-".to_string()).as_i64(), None);
    assert_eq!(JsonValue::Number("0042".to_string()).as_i64(), Some(42));
}

#[test]
fn configuration_listing_query() {
    let mut q = ConfigurationQuery::default();
    q.tenant_ids = Some(vec!["a".to_string(), "b".to_string()]);
    q.display_name_filter = Some("corp".to_string());
    q.limit = Some(5000);
    q.offset = Some(10);
    q.sort_order = SortOrder::DisplayNameDesc;
    let listing = configuration_listing(&q).expect("listing");
    assert!(listing.sql.ends_with(
        "FROM tenant_configurations\n         WHERE tenant_id IN (?, ?) AND display_name LIKE ? ORDER BY display_name DESC LIMIT 1000 OFFSET 10"
    ));
    assert_eq!(listing.params, vec!["a", "b", "%corp%", "1000", "10"]);
    assert_eq!(listing.limit, 1000);

    let plain = configuration_listing(&ConfigurationQuery::default()).expect("listing");
    assert!(plain.sql.ends_with("FROM tenant_configurations\n         ORDER BY tenant_id ASC LIMIT 100 OFFSET 0"));

    let page = listing_result(Vec::new(), 100, 20, 999);
    assert_eq!(page.total_count, 20);
    assert!(!page.has_more);
    assert!(page.next_offset.is_none());
}

#[test]
fn configuration_rows_are_read_in_order() {
    let mut row: StrMap<JsonValue> = StrMap::new();
    row.insert("tenant_id".to_string(), JsonValue::text("acme"));
    let r = configuration_row_from(&row, Some(1), Some(2));
    assert!(matches!(r, Err(ConfigurationError::ValidationError { ref message }) if message == "Missing display_name in database row"));
    row.insert("display_name".to_string(), JsonValue::text("Acme"));
    row.insert("created_at".to_string(), JsonValue::text("2024-01-01T00:00:00Z"));
    row.insert("last_modified".to_string(), JsonValue::text("2024-01-01T00:00:01+00:00"));
    row.insert("version".to_string(), JsonValue::Number("3".to_string()));
    row.insert("schema_config".to_string(), JsonValue::text("{}"));
    let fields = configuration_row(&row).expect("row");
    assert_eq!(fields.tenant_id, "acme");
    assert_eq!(fields.created_at, 1704067200000000);
    assert_eq!(fields.last_modified, 1704067201000000);
    assert_eq!(fields.version, 3);
    assert_eq!(fields.schema_config.as_deref(), Some("{}"));
    assert!(fields.branding_config.is_none());
    row.insert("created_at".to_string(), JsonValue::text("yesterday"));
    let r = configuration_row(&row);
    assert!(matches!(r, Err(ConfigurationError::ValidationError { ref message }) if message == "Invalid created_at in database row"));
}

#[test]
fn patch_operations_trait() {
    let p = StandardResourceProvider::new_in_memory();
    let mut data = JsonValue::object().with("name", JsonValue::object());
    ScimPatchOperations::set_value_at_path(&p, &mut data, "name.givenName", JsonValue::text("Ann")).expect("set");
    assert_eq!(
        data.get("name").and_then(|n| n.get_str("givenName")).map(|s| s.as_str()),
        Some("Ann")
    );
    let bad = ScimPatchOperations::set_value_at_path(&p, &mut data, "", JsonValue::Null);
    assert_eq!(bad, Err("Invalid SCIM path: ".to_string()));
    assert!(ScimPatchOperations::is_readonly_attribute(&p, "META.created"));
    let op = JsonValue::object().with("op", JsonValue::text("remove")).with("path", JsonValue::text("id"));
    assert_eq!(
        p.apply_patch_operation(&mut data, &op),
        Err("Cannot modify readonly attribute: id".to_string())
    );
}

#[test]
fn provider_stats_count_tenants_resources_and_types() {
    let mut p = StandardResourceProvider::new_in_memory();
    let empty = p.get_stats();
    assert_eq!(empty.tenant_count, 0);
    assert_eq!(empty.total_resources, 0);
    assert!(empty.is_empty());
    let c = ctx();
    p.create_resource("User", user("u1", "alice"), &c).expect("created");
    p.create_resource("User", user("u2", "bob"), &c).expect("created");
    p.create_resource("Group", JsonValue::object().with("displayName", JsonValue::text("g")), &c).expect("created");
    let other = RequestContext::with_tenant("r2".to_string(), TenantContext::new("tenant-a".to_string(), "client".to_string()));
    p.create_resource("User", user("u9", "carol"), &other).expect("created");
    let stats = p.get_stats();
    assert_eq!(stats.tenant_count, 2);
    assert_eq!(stats.total_resources, 4);
    assert_eq!(stats.resource_type_count, 2);
    let mut types = stats.resource_types.clone();
    types.sort();
    assert_eq!(types, vec!["Group".to_string(), "User".to_string()]);
    p.clear();
    assert_eq!(p.get_stats().total_resources, 0);
}

#[test]
fn patch_trait_add_remove_replace() {
    let p = StandardResourceProvider::new_in_memory();
    let mut data = JsonValue::object().with("userName", JsonValue::text("a"));
    assert_eq!(
        p.apply_add_operation(&mut data, Some("title"), None),
        Err("ADD operation requires a value".to_string())
    );
    let extra = JsonValue::object().with("nickName", JsonValue::text("n"));
    p.apply_add_operation(&mut data, None, Some(&extra)).expect("merged");
    assert_eq!(data.get_str("nickName").map(|s| s.as_str()), Some("n"));
    p.apply_replace_operation(&mut data, Some("userName"), Some(&JsonValue::text("b"))).expect("replaced");
    assert_eq!(data.get_str("userName").map(|s| s.as_str()), Some("b"));
    assert_eq!(
        p.apply_replace_operation(&mut data, None, None),
        Err("REPLACE operation requires a value".to_string())
    );
    p.apply_remove_operation(&mut data, Some("nickName")).expect("removed");
    assert!(data.get("nickName").is_none());
    p.apply_remove_operation(&mut data, None).expect("nothing to remove");
    assert_eq!(data.get_str("userName").map(|s| s.as_str()), Some("b"));
}

#[test]
fn single_tenant_operations_use_the_default_tenant() {
    let mut p = StandardResourceProvider::new_in_memory();
    let created = p.create_single_tenant("User", user("s1", "solo"), Some("req-1".to_string())).expect("created");
    assert_eq!(created.resource().get_id().map(|s| s.as_str()), Some("s1"));
    assert_eq!(p.count_resources_for_tenant("default", "User"), 1);
    let read = p.get_single_tenant("User", "s1", None).expect("read").expect("present");
    assert_eq!(read.version().as_str(), created.version().as_str());
    let updated = p
        .update_single_tenant("User", "s1", user("s1", "solo2"), Some(created.version()), None)
        .expect("updated");
    assert_ne!(updated.version().as_str(), created.version().as_str());
    assert!(p.delete_single_tenant("User", "s1", Some(created.version()), None).is_err());
    p.delete_single_tenant("User", "s1", Some(updated.version()), None).expect("deleted");
    assert!(p.get_single_tenant("User", "s1", None).expect("read").is_none());
}

fn email(kind: &str, value: &str) -> JsonValue {
    JsonValue::object().with("type", JsonValue::text(kind)).with("value", JsonValue::text(value))
}

#[test]
fn patch_appends_to_multi_valued_attributes() {
    let p = StandardResourceProvider::new_in_memory();
    let first = JsonValue::object().with("value", JsonValue::text("a@x.com"));
    let mut d1 = JsonValue::object().with("emails", JsonValue::Array(vec![first.deep_clone()]));
    let added = JsonValue::object().with("value", JsonValue::text("b@x.com"));
    ScimPatchOperations::set_value_at_path(&p, &mut d1, "emails", added.deep_clone()).expect("appended");
    let expected = JsonValue::object().with("emails", JsonValue::Array(vec![first.deep_clone(), added]));
    assert!(d1.equals(&expected));

    let mut d2 = JsonValue::object().with("emails", JsonValue::Array(vec![first]));
    let replacement = JsonValue::Array(vec![JsonValue::object().with("value", JsonValue::text("c@x.com"))]);
    ScimPatchOperations::set_value_at_path(&p, &mut d2, "emails", replacement.deep_clone()).expect("replaced");
    assert!(d2.equals(&JsonValue::object().with("emails", replacement)));

    let mut d5 = JsonValue::object();
    let phone = JsonValue::object().with("value", JsonValue::text("555"));
    ScimPatchOperations::set_value_at_path(&p, &mut d5, "phoneNumbers", phone.deep_clone()).expect("created");
    assert!(d5.equals(&JsonValue::object().with("phoneNumbers", JsonValue::Array(vec![phone]))));

    let mut d6 = JsonValue::object().with("title", JsonValue::text("old"));
    ScimPatchOperations::set_value_at_path(&p, &mut d6, "title", JsonValue::text("new")).expect("set");
    assert_eq!(d6.get_str("title").map(|s| s.as_str()), Some("new"));
}

#[test]
fn patch_nested_paths_create_objects_and_refuse_non_objects() {
    let p = StandardResourceProvider::new_in_memory();
    let mut d3 = JsonValue::object();
    ScimPatchOperations::set_value_at_path(&p, &mut d3, "name.givenName", JsonValue::text("Jo")).expect("set");
    assert!(d3.equals(&JsonValue::object().with("name", JsonValue::object().with("givenName", JsonValue::text("Jo")))));

    let mut d4 = JsonValue::object().with("name", JsonValue::text("x"));
    let r = ScimPatchOperations::set_value_at_path(&p, &mut d4, "name.givenName", JsonValue::text("Jo"));
    assert_eq!(r, Err("Cannot set value at path 'name.givenName' - target is not an object".to_string()));
    assert!(d4.equals(&JsonValue::object().with("name", JsonValue::text("x"))));

    let mut d7 = JsonValue::object().with("a", JsonValue::text("x"));
    let r = ScimPatchOperations::set_value_at_path(&p, &mut d7, "a.b.c", JsonValue::text("v"));
    assert_eq!(r, Err("Cannot navigate path 'a.b.c' - intermediate value is not an object".to_string()));
}

#[test]
fn patch_filtered_paths_select_elements() {
    let p = StandardResourceProvider::new_in_memory();
    let mut data = JsonValue::object().with(
        "emails",
        JsonValue::Array(vec![email("work", "a@x.com"), email("home", "h@x.com")]),
    );
    ScimPatchOperations::set_value_at_path(&p, &mut data, "emails[type eq \"work\"].value", JsonValue::text("b@x.com"))
        .expect("set");
    let expected = JsonValue::object().with(
        "emails",
        JsonValue::Array(vec![email("work", "b@x.com"), email("home", "h@x.com")]),
    );
    assert!(data.equals(&expected));
    assert!(ScimPatchOperations::is_valid_scim_path(&p, "emails[type eq \"work\"].value"));
    assert!(!ScimPatchOperations::is_valid_scim_path(&p, "emails[type eq work]"));

    let op = JsonValue::object()
        .with("op", JsonValue::text("remove"))
        .with("path", JsonValue::text("emails[type eq \"home\"]"));
    p.apply_patch_operation(&mut data, &op).expect("removed");
    let expected = JsonValue::object().with("emails", JsonValue::Array(vec![email("work", "b@x.com")]));
    assert!(data.equals(&expected));
}

#[test]
fn provider_update_keeps_listing_and_delete_shrinks_it() {
    let mut p = StandardResourceProvider::new_in_memory();
    let c = ctx();
    p.create_resource("User", user("u1", "alice"), &c).expect("created");
    p.create_resource("User", user("u2", "bob"), &c).expect("created");
    p.update_resource("User", "u1", user("u1", "alice2"), None, &c).expect("updated");
    let listed = p.list_resources("User", None, &c).expect("listed");
    assert_eq!(listed.len(), 2);
    assert_eq!(listed[0].resource().get_id().map(|s| s.as_str()), Some("u1"));
    p.delete_resource("User", "u1", None, &c).expect("deleted");
    let listed = p.list_resources("User", None, &c).expect("listed");
    assert_eq!(listed.len(), 1);
    assert_eq!(listed[0].resource().get_id().map(|s| s.as_str()), Some("u2"));
}

#[test]
fn fresh_provider_has_empty_stats_and_listing() {
    let p = StandardResourceProvider::new(scim_server::storage::InMemoryStorage::new());
    let stats = p.get_stats();
    assert_eq!(stats.total_resources, 0);
    assert_eq!(stats.tenant_count, 0);
    assert_eq!(p.list_resources("User", None, &ctx()).expect("listed").len(), 0);
}

#[test]
fn generated_request_ids_are_uuid_v4_text() {
    let c = RequestContext::with_generated_id();
    let id: Vec<char> = c.request_id.chars().collect();
    assert_eq!(id.len(), 36);
    for (i, ch) in id.iter().enumerate() {
        if i == 8 || i == 13 || i == 18 || i == 23 {
            assert_eq!(*ch, '-');
        } else {
            assert!(ch.is_ascii_hexdigit() && !ch.is_ascii_uppercase());
        }
    }
    assert_eq!(id[14], '4');
    assert!(matches!(id[19], '8' | '9' | 'a' | 'b'));
}

#[test]
fn provider_over_filled_storage_versions_follow_content() {
    let mut storage = scim_server::storage::InMemoryStorage::new();
    storage.put("default", "User", "u7", user("u7", "seven"), 41);
    let mut p = StandardResourceProvider::new(storage);
    let got = p.get_resource("User", "u7", &ctx()).expect("read").expect("found");
    assert_eq!(got.version().as_str(), content_version(&user("u7", "seven")));
    let created = p.create_resource("User", user("u8", "eight"), &ctx()).expect("created");
    assert_eq!(created.version().as_str(), content_version(&created.resource().data));
    assert_eq!(p.list_resources("User", None, &ctx()).expect("listed").len(), 2);
}

#[test]
fn equal_content_has_equal_versions() {
    let mut p = StandardResourceProvider::new_in_memory();
    let c = ctx();
    p.create_resource("User", user("u1", "alice"), &c).expect("created");
    let first = p.update_resource("User", "u1", user("u1", "alice2"), None, &c).expect("updated");
    let second = p.update_resource("User", "u1", user("u1", "alice2"), None, &c).expect("updated again");
    assert_eq!(first.version().as_str(), second.version().as_str());
    let other = RequestContext::with_tenant("r2".to_string(), TenantContext::new("tenant-b".to_string(), "client".to_string()));
    p.create_resource("User", user("u1", "alice"), &other).expect("created");
    let there = p.update_resource("User", "u1", user("u1", "alice2"), None, &other).expect("updated");
    assert_eq!(there.version().as_str(), first.version().as_str());
    let changed = p.update_resource("User", "u1", user("u1", "alice3"), None, &c).expect("changed");
    assert_ne!(changed.version().as_str(), first.version().as_str());
}

#[test]
fn decimal_text_of_integers() {
    assert_eq!(decimal_string(0), "0");
    assert_eq!(decimal_string(7), "7");
    assert_eq!(decimal_string(1234567890), "1234567890");
    assert_eq!(decimal_string(u64::MAX), u64::MAX.to_string());
}

#[test]
fn patch_remove_nested_paths() {
    let p = StandardResourceProvider::new_in_memory();
    let mut data = JsonValue::object().with("a", JsonValue::text("x"));
    let r = ScimPatchOperations::remove_value_at_path(&p, &mut data, "a.b.c");
    assert_eq!(r, Err("Cannot navigate path 'a.b.c' - intermediate value is not an object".to_string()));
    ScimPatchOperations::remove_value_at_path(&p, &mut data, "a.b").expect("nothing to remove");
    assert!(data.equals(&JsonValue::object().with("a", JsonValue::text("x"))));
    let mut named = JsonValue::object().with(
        "name",
        JsonValue::object().with("givenName", JsonValue::text("Jo")).with("familyName", JsonValue::text("Do")),
    );
    ScimPatchOperations::remove_value_at_path(&p, &mut named, "name.givenName").expect("removed");
    assert!(named.equals(&JsonValue::object().with("name", JsonValue::object().with("familyName", JsonValue::text("Do")))));
    let mut empty = JsonValue::object();
    ScimPatchOperations::remove_value_at_path(&p, &mut empty, "name.givenName").expect("missing is fine");
    assert!(empty.equals(&JsonValue::object()));
}

#[test]
fn only_full_pages_need_the_total_count() {
    assert!(!listing_needs_count(3, 10));
    assert!(listing_needs_count(10, 10));
    assert!(listing_needs_count(0, 0));
}
