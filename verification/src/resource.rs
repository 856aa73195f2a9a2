//! Resource model, request contexts and tenant contexts.
//!
//! A resource is a typed JSON document. Request contexts carry the request
//! identifier, the optional user and the optional tenant of an operation.

use vstd::prelude::*;
use crate::ids::{is_uuid_v4_text, lemma_uuid_not_blank};
use crate::text::is_blank_text;
use crate::collections::StrMap;
use crate::ids::new_uuid_string;
use crate::json::{Json, JsonValue, items_view};
use crate::text::{concat, str_eq};

verus! {

/// The default schema URI of a resource type, if it has one.
pub open spec fn default_schemas(resource_type: Seq<char>) -> Seq<Seq<char>> {
    if resource_type == "User"@ {
        seq!["urn:ietf:params:scim:schemas:core:2.0:User"@]
    } else if resource_type == "Group"@ {
        seq!["urn:ietf:params:scim:schemas:core:2.0:Group"@]
    } else {
        Seq::empty()
    }
}

/// The strings among a sequence of JSON values, in order.
pub open spec fn strings_of(items: Seq<Json>) -> Seq<Seq<char>>
    decreases items.len(),
{
    if items.len() == 0 {
        Seq::empty()
    } else {
        let rest = strings_of(items.drop_last());
        match items.last() {
            Json::Str(s) => rest.push(s),
            _ => rest,
        }
    }
}

/// The views of a sequence of strings.
pub open spec fn strings_view(v: Seq<String>) -> Seq<Seq<char>> {
    Seq::new(v.len(), |i: int| v[i]@)
}

/// The schema URIs of a resource document: the strings of its `schemas`
/// array, or the default schemas of its type when there is no such array.
pub open spec fn schemas_of(resource_type: Seq<char>, data: Json) -> Seq<Seq<char>> {
    match data.get("schemas"@) {
        Some(Json::Array(items)) => strings_of(items),
        _ => default_schemas(resource_type),
    }
}

/// Mathematical model of an email address.
pub struct EmailModel {
    pub value: Seq<char>,
    pub email_type: Option<Seq<char>>,
    pub primary: Option<bool>,
    pub display: Option<Seq<char>>,
}

/// The email address described by one entry of an `emails` array.
pub open spec fn email_of(item: Json) -> Option<EmailModel> {
    match item.get_str("value"@) {
        Some(v) => Some(
            EmailModel {
                value: v,
                email_type: item.get_str("type"@),
                primary: item.get_bool("primary"@),
                display: item.get_str("display"@),
            },
        ),
        None => None,
    }
}

/// The email addresses described by the entries of an `emails` array.
pub open spec fn emails_of(items: Seq<Json>) -> Seq<EmailModel>
    decreases items.len(),
{
    if items.len() == 0 {
        Seq::empty()
    } else {
        let rest = emails_of(items.drop_last());
        match email_of(items.last()) {
            Some(e) => rest.push(e),
            None => rest,
        }
    }
}

/// The email addresses of a resource document.
pub open spec fn resource_emails(data: Json) -> Seq<EmailModel> {
    match data.get("emails"@) {
        Some(Json::Array(items)) => emails_of(items),
        _ => Seq::empty(),
    }
}

/// A SCIM resource: a resource type and its JSON document.
#[derive(Debug, Clone)]
pub struct Resource {
    /// The type of this resource (e.g. "User", "Group").
    pub resource_type: String,
    /// The resource document.
    pub data: JsonValue,
}

/// Email address extracted from a User resource.
#[derive(Debug, Clone)]
pub struct EmailAddress {
    pub value: String,
    pub email_type: Option<String>,
    pub primary: Option<bool>,
    pub display: Option<String>,
}

/// The view of an optional string.
pub open spec fn opt_view(s: Option<String>) -> Option<Seq<char>> {
    match s {
        Some(x) => Some(x@),
        None => None,
    }
}

impl EmailAddress {
    /// The mathematical model of this address.
    pub open spec fn view(&self) -> EmailModel {
        EmailModel {
            value: self.value@,
            email_type: opt_view(self.email_type),
            primary: self.primary,
            display: opt_view(self.display),
        }
    }
}

/// The `meta` set by `Resource::add_metadata`.
pub open spec fn added_meta(resource_type: Seq<char>, data: Json, base_url: Seq<char>, created: Seq<char>, last_modified: Seq<char>) -> Json {
    let id = match data.get_str("id"@) {
        Some(s) => s,
        None => Seq::empty(),
    };
    Json::Object(Seq::empty()).set("created"@, Json::Str(created)).set("lastModified"@, Json::Str(last_modified)).set(
        "location"@,
        Json::Str(base_url + "/"@ + resource_type + "s/"@ + id),
    ).set("resourceType"@, Json::Str(resource_type)).set("version"@, Json::Str("W/\""@ + id + "-"@ + last_modified + "\""@))
}

/// A copy of an optional string.
pub fn copy_opt_string(s: Option<&String>) -> (r: Option<String>)
    ensures
        match s {
            Some(x) => r == Some(*x),
            None => r is None,
        },
{
    match s {
        Some(x) => Some(x.clone()),
        None => None,
    }
}

impl Resource {
    /// Creates a resource of the given type holding `data`.
    pub fn new(resource_type: String, data: JsonValue) -> (r: Resource)
        ensures
            r.resource_type == resource_type,
            r.data == data,
    {
        Resource { resource_type, data }
    }

    /// The `id` member of the document, when it is a string.
    pub fn get_id(&self) -> (r: Option<&String>)
        ensures
            opt_view(copy_of(r)) == self.data@.get_str("id"@),
    {
        self.data.get_str("id")
    }

    /// The `userName` member of the document, when it is a string.
    pub fn get_username(&self) -> (r: Option<&String>)
        ensures
            opt_view(copy_of(r)) == self.data@.get_str("userName"@),
    {
        self.data.get_str("userName")
    }

    /// The member named `attribute_name`, if present.
    pub fn get_attribute(&self, attribute_name: &str) -> (r: Option<&JsonValue>)
        ensures
            match r {
                Some(v) => self.data@.get(attribute_name@) == Some(v@),
                None => self.data@.get(attribute_name@) is None,
            },
    {
        self.data.get(attribute_name)
    }

    /// Sets member `attribute_name` when the document is an object.
    pub fn set_attribute(&mut self, attribute_name: String, value: JsonValue)
        ensures
            final(self).resource_type == old(self).resource_type,
            final(self).data@ == old(self).data@.set(attribute_name@, value@),
    {
        self.data.insert(attribute_name, value);
    }

    /// Sets the resource's `meta`: its type, the given creation and
    /// modification times, its location under `base_url` (the type with an
    /// `s` appended, then the id) and a version made of the id and the
    /// modification time. Members are in name order.
    pub fn add_metadata(&mut self, base_url: &str, created: &str, last_modified: &str)
        ensures
            final(self).resource_type == old(self).resource_type,
            final(self).data@ == old(self).data@.set("meta"@, added_meta(old(self).resource_type@, old(self).data@, base_url@, created@, last_modified@)),
    {
        let id = match self.data.get_str("id") {
            Some(s) => s.clone(),
            None => String::new(),
        };
        let a = concat(base_url, "/");
        let b = concat(a.as_str(), self.resource_type.as_str());
        let c = concat(b.as_str(), "s/");
        let location = concat(c.as_str(), id.as_str());
        let d = concat("W/\"", id.as_str());
        let e = concat(d.as_str(), "-");
        let f = concat(e.as_str(), last_modified);
        let version = concat(f.as_str(), "\"");
        let meta = JsonValue::object().with("created", JsonValue::text(created)).with(
            "lastModified",
            JsonValue::text(last_modified),
        ).with("location", JsonValue::Str(location)).with("resourceType", JsonValue::text(self.resource_type.as_str())).with(
            "version",
            JsonValue::Str(version),
        );
        self.data.insert("meta".to_string(), meta);
    }

    /// The schema URIs of this resource: the strings in its `schemas` array,
    /// or the core schema of its type (User, Group) when there is none.
    pub fn get_schemas(&self) -> (r: Vec<String>)
        ensures
            strings_view(r@) == schemas_of(self.resource_type@, self.data@),
    {
        match self.data.get("schemas") {
            Some(v) => match v.as_array() {
                Some(items) => {
                    let mut out: Vec<String> = Vec::new();
                    let mut i: usize = 0;
                    let ghost iv = items_view(items@);
                    while i < items.len()
                        invariant
                            iv == items_view(items@),
                            i <= items.len(),
                            strings_view(out@) == strings_of(iv.take(i as int)),
                        decreases items.len() - i,
                    {
                        let ghost before = out@;
                        assert(iv.take(i + 1).drop_last() =~= iv.take(i as int));
                        match items[i].as_str() {
                            Some(s) => {
                                out.push(s.clone());
                                assert(strings_view(out@) =~= strings_view(before).push(s@));
                            },
                            None => {},
                        }
                        i = i + 1;
                    }
                    assert(iv.take(items.len() as int) =~= iv);
                    return out;
                },
                None => {},
            },
            None => {},
        }
        let mut out: Vec<String> = Vec::new();
        if str_eq(self.resource_type.as_str(), "User") {
            out.push("urn:ietf:params:scim:schemas:core:2.0:User".to_string());
        } else if str_eq(self.resource_type.as_str(), "Group") {
            out.push("urn:ietf:params:scim:schemas:core:2.0:Group".to_string());
        }
        assert(strings_view(out@) =~= default_schemas(self.resource_type@));
        out
    }

    /// Whether the resource is active: its `active` member when that is a
    /// boolean, `true` otherwise.
    pub fn is_active(&self) -> (r: bool)
        ensures
            r == match self.data@.get_bool("active"@) {
                Some(b) => b,
                None => true,
            },
    {
        match self.data.get_bool("active") {
            Some(b) => b,
            None => true,
        }
    }

    /// The email addresses listed in the `emails` array: every entry whose
    /// `value` is a string, in order.
    pub fn get_emails(&self) -> (r: Vec<EmailAddress>)
        ensures
            Seq::new(r@.len(), |i: int| r@[i]@) == resource_emails(self.data@),
    {
        let mut out: Vec<EmailAddress> = Vec::new();
        match self.data.get("emails") {
            Some(v) => match v.as_array() {
                Some(items) => {
                    let mut i: usize = 0;
                    let ghost iv = items_view(items@);
                    while i < items.len()
                        invariant
                            iv == items_view(items@),
                            i <= items.len(),
                            Seq::new(out@.len(), |k: int| out@[k]@) == emails_of(iv.take(i as int)),
                        decreases items.len() - i,
                    {
                        let ghost before = out@;
                        assert(iv.take(i + 1).drop_last() =~= iv.take(i as int));
                        let item = &items[i];
                        match item.get_str("value") {
                            Some(value) => {
                                let e = EmailAddress {
                                    value: value.clone(),
                                    email_type: copy_opt_string(item.get_str("type")),
                                    primary: item.get_bool("primary"),
                                    display: copy_opt_string(item.get_str("display")),
                                };
                                out.push(e);
                                assert(Seq::new(out@.len(), |k: int| out@[k]@) =~= Seq::new(
                                    before.len(),
                                    |k: int| before[k]@,
                                ).push(e@));
                            },
                            None => {},
                        }
                        i = i + 1;
                    }
                    assert(iv.take(items.len() as int) =~= iv);
                },
                None => {
                    assert(Seq::new(out@.len(), |k: int| out@[k]@) =~= Seq::<EmailModel>::empty());
                },
            },
            None => {
                assert(Seq::new(out@.len(), |k: int| out@[k]@) =~= Seq::<EmailModel>::empty());
            },
        }
        out
    }
}

/// An optional string reference as an owned optional string (for contracts).
pub open spec fn copy_of(r: Option<&String>) -> Option<String> {
    match r {
        Some(s) => Some(*s),
        None => None,
    }
}

/// How strictly a tenant's data is separated from other tenants.
#[derive(Debug, Clone, Copy, PartialEq, Eq, Structural)]
pub enum IsolationLevel {
    /// Complete separation.
    Strict,
    /// Separation by tenant identifiers (the default).
    Standard,
    /// Some resources may be shared between tenants.
    Shared,
}

impl Default for IsolationLevel {
    fn default() -> (r: Self)
        ensures
            r == IsolationLevel::Standard,
    {
        IsolationLevel::Standard
    }
}

/// What a tenant is allowed to do.
#[derive(Debug, Clone, Copy, PartialEq, Eq, Structural)]
pub struct TenantPermissions {
    pub can_create: bool,
    pub can_read: bool,
    pub can_update: bool,
    pub can_delete: bool,
    pub can_list: bool,
    /// Maximum number of users, if limited.
    pub max_users: Option<usize>,
    /// Maximum number of groups, if limited.
    pub max_groups: Option<usize>,
}

impl TenantPermissions {
    /// Every operation allowed and no limits.
    pub open spec fn spec_default() -> TenantPermissions {
        TenantPermissions {
            can_create: true,
            can_read: true,
            can_update: true,
            can_delete: true,
            can_list: true,
            max_users: None,
            max_groups: None,
        }
    }
}

impl Default for TenantPermissions {
    fn default() -> (r: Self)
        ensures
            r == TenantPermissions::spec_default(),
    {
        TenantPermissions {
            can_create: true,
            can_read: true,
            can_update: true,
            can_delete: true,
            can_list: true,
            max_users: None,
            max_groups: None,
        }
    }
}

/// Whether `permissions` allow the named operation.
pub open spec fn permits(permissions: TenantPermissions, operation: Seq<char>) -> bool {
    if operation == "create"@ {
        permissions.can_create
    } else if operation == "read"@ {
        permissions.can_read
    } else if operation == "update"@ {
        permissions.can_update
    } else if operation == "delete"@ {
        permissions.can_delete
    } else if operation == "list"@ {
        permissions.can_list
    } else {
        false
    }
}

/// Whether a count stays below an optional limit.
pub open spec fn below_limit(limit: Option<usize>, current: usize) -> bool {
    match limit {
        Some(max) => current < max,
        None => true,
    }
}

/// The tenant an operation runs for.
#[derive(Debug, Clone)]
pub struct TenantContext {
    pub tenant_id: String,
    pub client_id: String,
    pub permissions: TenantPermissions,
    pub isolation_level: IsolationLevel,
}

/// Whether the named operation is allowed by `permissions`.
pub fn permissions_allow(permissions: &TenantPermissions, operation: &str) -> (r: bool)
    ensures
        r == permits(*permissions, operation@),
{
    if str_eq(operation, "create") {
        permissions.can_create
    } else if str_eq(operation, "read") {
        permissions.can_read
    } else if str_eq(operation, "update") {
        permissions.can_update
    } else if str_eq(operation, "delete") {
        permissions.can_delete
    } else if str_eq(operation, "list") {
        permissions.can_list
    } else {
        false
    }
}

impl TenantContext {
    /// A tenant context with default permissions and standard isolation.
    pub fn new(tenant_id: String, client_id: String) -> (r: TenantContext)
        ensures
            r.tenant_id == tenant_id,
            r.client_id == client_id,
            r.permissions == TenantPermissions::spec_default(),
            r.isolation_level == IsolationLevel::Standard,
    {
        TenantContext {
            tenant_id,
            client_id,
            permissions: TenantPermissions::default(),
            isolation_level: IsolationLevel::Standard,
        }
    }

    /// This context with another isolation level.
    pub fn with_isolation_level(self, level: IsolationLevel) -> (r: TenantContext)
        ensures
            r.tenant_id == self.tenant_id,
            r.client_id == self.client_id,
            r.permissions == self.permissions,
            r.isolation_level == level,
    {
        TenantContext { isolation_level: level, ..self }
    }

    /// This context with other permissions.
    pub fn with_permissions(self, permissions: TenantPermissions) -> (r: TenantContext)
        ensures
            r.tenant_id == self.tenant_id,
            r.client_id == self.client_id,
            r.permissions == permissions,
            r.isolation_level == self.isolation_level,
    {
        TenantContext { permissions, ..self }
    }

    /// Whether the tenant may perform the named operation
    /// (create, read, update, delete or list).
    pub fn can_perform_operation(&self, operation: &str) -> (r: bool)
        ensures
            r == permits(self.permissions, operation@),
    {
        permissions_allow(&self.permissions, operation)
    }

    /// Whether another user may be added to `current_count` users.
    pub fn check_user_limit(&self, current_count: usize) -> (r: bool)
        ensures
            r == below_limit(self.permissions.max_users, current_count),
    {
        match self.permissions.max_users {
            Some(max) => current_count < max,
            None => true,
        }
    }

    /// Whether another group may be added to `current_count` groups.
    pub fn check_group_limit(&self, current_count: usize) -> (r: bool)
        ensures
            r == below_limit(self.permissions.max_groups, current_count),
    {
        match self.permissions.max_groups {
            Some(max) => current_count < max,
            None => true,
        }
    }

    /// A copy of this context.
    pub fn copy(&self) -> (r: TenantContext)
        ensures
            r.tenant_id == self.tenant_id,
            r.client_id == self.client_id,
            r.permissions == self.permissions,
            r.isolation_level == self.isolation_level,
    {
        TenantContext {
            tenant_id: self.tenant_id.clone(),
            client_id: self.client_id.clone(),
            permissions: self.permissions,
            isolation_level: self.isolation_level,
        }
    }
}

/// The message of a refused operation.
pub open spec fn operation_refused_message(operation: Seq<char>, tenant_id: Seq<char>) -> Seq<char> {
    "Operation '"@ + operation + "' not permitted for tenant '"@ + tenant_id + "'"@
}

/// Builds the message of a refused operation.
pub fn refused_message(operation: &str, tenant_id: &str) -> (r: String)
    ensures
        r@ == operation_refused_message(operation@, tenant_id@),
{
    let a = concat("Operation '", operation);
    let b = concat(a.as_str(), "' not permitted for tenant '");
    let c = concat(b.as_str(), tenant_id);
    let r = concat(c.as_str(), "'");
    r
}

/// User context for authorization and auditing.
#[derive(Debug, Clone)]
pub struct UserContext {
    pub user_id: String,
    pub roles: Vec<String>,
    pub attributes: StrMap<String>,
}

impl UserContext {
    /// A user with the given roles and no attributes.
    pub fn new(user_id: String, roles: Vec<String>) -> (r: UserContext)
        ensures
            r.user_id == user_id,
            r.roles == roles,
            r.attributes@ == Map::<Seq<char>, String>::empty(),
    {
        UserContext { user_id, roles, attributes: StrMap::new() }
    }

    /// Whether the user has the role `role`.
    pub fn has_role(&self, role: &str) -> (r: bool)
        ensures
            r == strings_view(self.roles@).contains(role@),
    {
        let mut i: usize = 0;
        while i < self.roles.len()
            invariant
                i <= self.roles@.len(),
                forall|j: int| 0 <= j < i ==> self.roles@[j]@ != role@,
            decreases self.roles@.len() - i,
        {
            if str_eq(self.roles[i].as_str(), role) {
                assert(strings_view(self.roles@)[i as int] == role@);
                return true;
            }
            i = i + 1;
        }
        false
    }
}

/// Context of one SCIM request.
#[derive(Debug, Clone)]
pub struct RequestContext {
    /// Identifier of this request.
    pub request_id: String,
    /// The user making the request, if known.
    pub user_context: Option<UserContext>,
    /// Additional request metadata.
    pub metadata: StrMap<String>,
    /// The tenant of the request; `None` for single-tenant operation.
    pub tenant_context: Option<TenantContext>,
}

/// The tenant identifier of an optional tenant context.
pub open spec fn tenant_of(tc: Option<TenantContext>) -> Option<Seq<char>> {
    match tc {
        Some(t) => Some(t.tenant_id@),
        None => None,
    }
}

impl RequestContext {
    /// The tenant identifier of this request, if it has a tenant.
    pub open spec fn spec_tenant_id(&self) -> Option<Seq<char>> {
        tenant_of(self.tenant_context)
    }

    /// A single-tenant context with a freshly generated identifier.
    pub fn new() -> (r: RequestContext)
        ensures
            is_uuid_v4_text(r.request_id@),
            !is_blank_text(r.request_id@),
            r.user_context is None,
            r.metadata@ == Map::<Seq<char>, String>::empty(),
            r.tenant_context is None,
    {
        let request_id = new_uuid_string();
        proof {
            lemma_uuid_not_blank(request_id@);
        }
        RequestContext {
            request_id,
            user_context: None,
            metadata: StrMap::new(),
            tenant_context: None,
        }
    }

    /// A single-tenant context with a freshly generated identifier.
    pub fn with_generated_id() -> (r: RequestContext)
        ensures
            is_uuid_v4_text(r.request_id@),
            !is_blank_text(r.request_id@),
            r.user_context is None,
            r.metadata@ == Map::<Seq<char>, String>::empty(),
            r.tenant_context is None,
    {
        RequestContext::new()
    }

    /// A single-tenant context with the given identifier.
    pub fn with_id(request_id: String) -> (r: RequestContext)
        ensures
            r.request_id == request_id,
            r.user_context is None,
            r.metadata@ == Map::<Seq<char>, String>::empty(),
            r.tenant_context is None,
    {
        RequestContext { request_id, user_context: None, metadata: StrMap::new(), tenant_context: None }
    }

    /// A multi-tenant context with the given identifier.
    pub fn with_tenant(request_id: String, tenant_context: TenantContext) -> (r: RequestContext)
        ensures
            r.request_id == request_id,
            r.user_context is None,
            r.metadata@ == Map::<Seq<char>, String>::empty(),
            r.tenant_context == Some(tenant_context),
    {
        RequestContext {
            request_id,
            user_context: None,
            metadata: StrMap::new(),
            tenant_context: Some(tenant_context),
        }
    }

    /// A multi-tenant context with a freshly generated identifier.
    pub fn with_tenant_generated_id(tenant_context: TenantContext) -> (r: RequestContext)
        ensures
            is_uuid_v4_text(r.request_id@),
            !is_blank_text(r.request_id@),
            r.user_context is None,
            r.metadata@ == Map::<Seq<char>, String>::empty(),
            r.tenant_context == Some(tenant_context),
    {
        let request_id = new_uuid_string();
        proof {
            lemma_uuid_not_blank(request_id@);
        }
        RequestContext::with_tenant(request_id, tenant_context)
    }

    /// This context with a user attached.
    pub fn with_user_context(self, user_context: UserContext) -> (r: RequestContext)
        ensures
            r.request_id == self.request_id,
            r.user_context == Some(user_context),
            r.metadata == self.metadata,
            r.tenant_context == self.tenant_context,
    {
        RequestContext { user_context: Some(user_context), ..self }
    }

    /// This context with metadata `key` set to `value`.
    pub fn with_metadata(self, key: String, value: String) -> (r: RequestContext)
        ensures
            r.request_id == self.request_id,
            r.user_context == self.user_context,
            r.metadata@ == self.metadata@.insert(key@, value),
            r.tenant_context == self.tenant_context,
    {
        let mut c = self;
        c.metadata.insert(key, value);
        c
    }

    /// The metadata stored under `key`.
    pub fn get_metadata(&self, key: &str) -> (r: Option<&String>)
        ensures
            match r {
                Some(v) => self.metadata@.contains_key(key@) && self.metadata@[key@] == *v,
                None => !self.metadata@.contains_key(key@),
            },
    {
        self.metadata.get(key)
    }

    /// The tenant identifier, if this request has a tenant.
    pub fn tenant_id(&self) -> (r: Option<&String>)
        ensures
            opt_view(copy_of(r)) == self.spec_tenant_id(),
    {
        match &self.tenant_context {
            Some(t) => Some(&t.tenant_id),
            None => None,
        }
    }

    /// Whether this request has a tenant.
    pub fn is_multi_tenant(&self) -> (r: bool)
        ensures
            r == (self.tenant_context is Some),
    {
        self.tenant_context.is_some()
    }

    /// Whether the tenant of this request may perform the named operation;
    /// single-tenant requests may perform every operation.
    pub fn can_perform_operation(&self, operation: &str) -> (r: bool)
        ensures
            r == match self.tenant_context {
                Some(t) => permits(t.permissions, operation@),
                None => true,
            },
    {
        match &self.tenant_context {
            Some(t) => t.can_perform_operation(operation),
            None => true,
        }
    }

    /// Succeeds when the operation is allowed; otherwise names the operation
    /// and the tenant.
    pub fn validate_operation(&self, operation: &str) -> (r: Result<(), String>)
        ensures
            match self.tenant_context {
                Some(t) => if permits(t.permissions, operation@) {
                    r is Ok
                } else {
                    r matches Err(m) && m@ == operation_refused_message(operation@, t.tenant_id@)
                },
                None => r is Ok,
            },
    {
        match &self.tenant_context {
            Some(t) => {
                if t.can_perform_operation(operation) {
                    Ok(())
                } else {
                    Err(refused_message(operation, t.tenant_id.as_str()))
                }
            },
            None => Ok(()),
        }
    }
}

/// A request context that always has a tenant.
#[derive(Debug, Clone)]
pub struct EnhancedRequestContext {
    pub request_id: String,
    pub tenant_context: TenantContext,
}

/// The message given when a request without a tenant is converted.
pub open spec fn no_tenant_message() -> Seq<char> {
    "Request context does not contain tenant information"@
}

impl EnhancedRequestContext {
    /// A context for `tenant_context` with a freshly generated identifier.
    pub fn with_generated_id(tenant_context: TenantContext) -> (r: EnhancedRequestContext)
        ensures
            is_uuid_v4_text(r.request_id@),
            !is_blank_text(r.request_id@),
            r.tenant_context == tenant_context,
    {
        let request_id = new_uuid_string();
        proof {
            lemma_uuid_not_blank(request_id@);
        }
        EnhancedRequestContext { request_id, tenant_context }
    }

    /// The tenant identifier.
    pub fn tenant_id(&self) -> (r: &String)
        ensures
            r == &self.tenant_context.tenant_id,
    {
        &self.tenant_context.tenant_id
    }

    /// The client identifier.
    pub fn client_id(&self) -> (r: &String)
        ensures
            r == &self.tenant_context.client_id,
    {
        &self.tenant_context.client_id
    }

    /// The isolation level of the tenant.
    pub fn isolation_level(&self) -> (r: &IsolationLevel)
        ensures
            *r == self.tenant_context.isolation_level,
    {
        &self.tenant_context.isolation_level
    }

    /// Whether the tenant may perform the named operation.
    pub fn can_perform_operation(&self, operation: &str) -> (r: bool)
        ensures
            r == permits(self.tenant_context.permissions, operation@),
    {
        self.tenant_context.can_perform_operation(operation)
    }

    /// Succeeds when the tenant may perform the named operation.
    pub fn validate_operation(&self, operation: &str) -> (r: Result<(), String>)
        ensures
            if permits(self.tenant_context.permissions, operation@) {
                r is Ok
            } else {
                r matches Err(m) && m@ == operation_refused_message(operation@, self.tenant_context.tenant_id@)
            },
    {
        if self.tenant_context.can_perform_operation(operation) {
            Ok(())
        } else {
            Err(refused_message(operation, self.tenant_context.tenant_id.as_str()))
        }
    }

    /// The equivalent request context.
    pub fn to_request_context(&self) -> (r: RequestContext)
        ensures
            r.request_id@ == self.request_id@,
            r.user_context is None,
            r.metadata@ == Map::<Seq<char>, String>::empty(),
            r.tenant_context matches Some(t) && t.tenant_id@ == self.tenant_context.tenant_id@
                && t.client_id@ == self.tenant_context.client_id@ && t.permissions
                == self.tenant_context.permissions && t.isolation_level
                == self.tenant_context.isolation_level,
    {
        RequestContext::with_tenant(self.request_id.clone(), self.tenant_context.copy())
    }

    /// Converts a request context that has a tenant.
    pub fn from_request_context(context: RequestContext) -> (r: Result<EnhancedRequestContext, String>)
        ensures
            match context.tenant_context {
                Some(t) => r == Ok::<EnhancedRequestContext, String>(
                    EnhancedRequestContext { request_id: context.request_id, tenant_context: t },
                ),
                None => r matches Err(m) && m@ == no_tenant_message(),
            },
    {
        match context.tenant_context {
            Some(t) => Ok(EnhancedRequestContext { request_id: context.request_id, tenant_context: t }),
            None => Err("Request context does not contain tenant information".to_string()),
        }
    }
}

impl TryFrom<RequestContext> for EnhancedRequestContext {
    type Error = String;

    /// Converts a request context that has a tenant.
    fn try_from(context: RequestContext) -> (r: Result<EnhancedRequestContext, String>)
        ensures
            match context.tenant_context {
                Some(t) => r == Ok::<EnhancedRequestContext, String>(
                    EnhancedRequestContext { request_id: context.request_id, tenant_context: t },
                ),
                None => r matches Err(m) && m@ == no_tenant_message(),
            },
    {
        EnhancedRequestContext::from_request_context(context)
    }
}

impl vstd::std_specs::convert::TryFromSpecImpl<RequestContext> for EnhancedRequestContext {
    open spec fn obeys_try_from_spec() -> bool {
        false
    }

    open spec fn try_from_spec(v: RequestContext) -> Result<EnhancedRequestContext, String> {
        match v.tenant_context {
            Some(t) => Ok(EnhancedRequestContext { request_id: v.request_id, tenant_context: t }),
            None => Err(vstd::pervasive::arbitrary()),
        }
    }
}

/// Query parameters for listing resources.
#[derive(Debug, Clone)]
pub struct ListQuery {
    /// Maximum number of results to return.
    pub count: Option<usize>,
    /// 1-based index of the first result.
    pub start_index: Option<usize>,
    /// Filter expression.
    pub filter: Option<String>,
    /// Attributes to include in results.
    pub attributes: Vec<String>,
    /// Attributes to exclude from results.
    pub excluded_attributes: Vec<String>,
}

impl ListQuery {
    /// An empty query.
    pub fn new() -> (r: ListQuery)
        ensures
            r.count is None,
            r.start_index is None,
            r.filter is None,
            r.attributes@.len() == 0,
            r.excluded_attributes@.len() == 0,
    {
        ListQuery {
            count: None,
            start_index: None,
            filter: None,
            attributes: Vec::new(),
            excluded_attributes: Vec::new(),
        }
    }

    /// This query with a maximum count.
    pub fn with_count(self, count: usize) -> (r: ListQuery)
        ensures
            r.count == Some(count),
            r.start_index == self.start_index,
            r.filter == self.filter,
            r.attributes == self.attributes,
            r.excluded_attributes == self.excluded_attributes,
    {
        ListQuery { count: Some(count), ..self }
    }

    /// This query with a starting index.
    pub fn with_start_index(self, start_index: usize) -> (r: ListQuery)
        ensures
            r.count == self.count,
            r.start_index == Some(start_index),
            r.filter == self.filter,
            r.attributes == self.attributes,
            r.excluded_attributes == self.excluded_attributes,
    {
        ListQuery { start_index: Some(start_index), ..self }
    }

    /// This query with a filter expression.
    pub fn with_filter(self, filter: String) -> (r: ListQuery)
        ensures
            r.count == self.count,
            r.start_index == self.start_index,
            r.filter == Some(filter),
            r.attributes == self.attributes,
            r.excluded_attributes == self.excluded_attributes,
    {
        ListQuery { filter: Some(filter), ..self }
    }
}

/// SCIM operations that can be registered for a resource type.
#[derive(Debug, Clone, Copy, PartialEq, Eq, Structural)]
pub enum ScimOperation {
    Create,
    Read,
    Update,
    Delete,
    List,
    Search,
    Patch,
}

} // verus!
