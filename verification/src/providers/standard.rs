//! The standard resource provider: SCIM protocol logic over in-memory storage.
//!
//! Resources are stored per tenant; requests without a tenant use the tenant
//! `default`. A resource's version is derived from its content: a hash of
//! the compact JSON text of the stored document, so equal documents have
//! equal versions and a write that changes the document (almost always)
//! changes its version. An update, delete or patch that names another
//! version than the current one is refused and leaves the storage
//! unchanged.

use vstd::prelude::*;
use crate::ids::is_uuid_v4_text;
use crate::ids::{new_uuid_string, now_rfc3339, rfc3339_instant};
use crate::json::{Json, JsonValue, lemma_get_set_other, lemma_get_set_same};
use crate::providers::error::{ErrorModel, ProviderError, RawVersion, VersionConflict};
use crate::providers::patch::{apply_patch_operations, patch_ops_result};
use crate::resource::{ListQuery, RequestContext, Resource, operation_refused_message, permits, tenant_of};
use crate::collections::saturated;
use crate::providers::in_memory::InMemoryStats;
use crate::storage::{
    InMemoryStorage, KeyModel, StoredModel, distinct_texts, holds_resources, lemma_empty_listings, lists_text,
    storage_total, stored_type,
};
use crate::json_text::json_text;
use crate::text::{concat, decimal, decimal_string, hash_text, str_eq, text_hash};

verus! {

/// Mathematical model of a resource with its version.
pub struct VersionedModel {
    pub resource_type: Seq<char>,
    pub data: Json,
    pub version: Seq<char>,
}

/// A resource together with the version it was stored with.
#[derive(Debug)]
pub struct VersionedResource {
    pub resource: Resource,
    pub version: RawVersion,
}

impl VersionedResource {
    /// The model of this versioned resource.
    pub open spec fn view(&self) -> VersionedModel {
        VersionedModel {
            resource_type: self.resource.resource_type@,
            data: self.resource.data@,
            version: self.version@,
        }
    }

    /// The resource.
    pub fn resource(&self) -> (r: &Resource)
        ensures
            r == &self.resource,
    {
        &self.resource
    }

    /// The version.
    pub fn version(&self) -> (r: &RawVersion)
        ensures
            r == &self.version,
    {
        &self.version
    }
}

/// The outcome of an operation conditional on a version.
#[derive(Debug)]
pub enum ConditionalResult<T> {
    /// The version matched and the operation was carried out.
    Success(T),
    /// The stored version differs from the expected one; nothing changed.
    VersionMismatch(VersionConflict),
    /// The resource does not exist; nothing changed.
    NotFound,
}

/// The tenant an operation runs in: the request's tenant, or `default`.
pub open spec fn effective_tenant(context: RequestContext) -> Seq<char> {
    match tenant_of(context.tenant_context) {
        Some(t) => t,
        None => "default"@,
    }
}

/// Whether the request may perform the named operation.
pub open spec fn context_permits(context: RequestContext, operation: Seq<char>) -> bool {
    match context.tenant_context {
        Some(t) => permits(t.permissions, operation),
        None => true,
    }
}

/// The error of a refused operation.
pub open spec fn refused_error(context: RequestContext, operation: Seq<char>) -> ErrorModel {
    ErrorModel::Internal {
        message: operation_refused_message(operation, effective_tenant(context)),
    }
}

/// The text of a version number.
pub open spec fn version_text(v: u64) -> Seq<char> {
    decimal(v as nat)
}

/// The version of a document: the hash of its compact JSON text.
pub open spec fn doc_version(d: Json) -> u64 {
    text_hash(json_text(d))
}

/// The version of a stored document.
fn version_of(d: &JsonValue) -> (r: u64)
    ensures
        r == doc_version(d@),
{
    hash_text(d.to_json_string().as_str())
}

/// The weak ETag of a version number.
pub open spec fn etag_text(v: u64) -> Seq<char> {
    "W/\""@ + version_text(v) + "\""@
}

/// The base URL of resource locations.
pub open spec fn base_url() -> Seq<char> {
    "https://example.com/scim/v2"@
}

/// The location of a resource.
pub open spec fn location_text(resource_type: Seq<char>, id: Seq<char>) -> Seq<char> {
    base_url() + "/"@ + resource_type + "/"@ + id
}

/// The `meta` object of a newly created resource.
pub open spec fn creation_meta(resource_type: Seq<char>, id: Seq<char>, now: Seq<char>, v: u64) -> Json {
    Json::Object(Seq::empty()).set("resourceType"@, Json::Str(resource_type)).set(
        "created"@,
        Json::Str(now),
    ).set("lastModified"@, Json::Str(now)).set(
        "location"@,
        Json::Str(location_text(resource_type, id)),
    ).set("version"@, Json::Str(etag_text(v)))
}

/// The document with `id` set to `generated` when it has no `id` member.
pub open spec fn with_generated_id(data: Json, generated: Seq<char>) -> Json {
    if data.get("id"@) is None {
        data.set("id"@, Json::Str(generated))
    } else {
        data
    }
}

/// The id a document is stored under: its string `id`, or `unknown`.
pub open spec fn doc_id(data: Json) -> Seq<char> {
    match data.get_str("id"@) {
        Some(s) => s,
        None => "unknown"@,
    }
}

/// The document stored by a create.
pub open spec fn created_doc(data: Json, resource_type: Seq<char>, now: Seq<char>, v: u64) -> Json {
    data.set("meta"@, creation_meta(resource_type, doc_id(data), now, v))
}

/// The document stored by an update: its `meta` object, if it has one, gets
/// a new modification time and version.
pub open spec fn updated_doc(data: Json, now: Seq<char>, v: u64) -> Json {
    match data.get("meta"@) {
        Some(Json::Object(f)) => data.set(
            "meta"@,
            Json::Object(f).set("lastModified"@, Json::Str(now)).set("version"@, Json::Str(etag_text(v))),
        ),
        _ => data,
    }
}

/// Whether a User other than `exclude` in the tenant has `userName` equal to `name`.
pub open spec fn username_taken(
    store: Map<KeyModel, StoredModel>,
    tenant: Seq<char>,
    name: Seq<char>,
    exclude: Option<Seq<char>>,
) -> bool {
    exists|id: Seq<char>|
        #![trigger store.contains_key((tenant, "User"@, id))]
        store.contains_key((tenant, "User"@, id)) && store[(tenant, "User"@, id)].data.get_str(
            "userName"@,
        ) == Some(name) && exclude != Some(id)
}

/// The error for a duplicate `userName`.
pub open spec fn duplicate_error(tenant: Seq<char>, name: Seq<char>) -> ErrorModel {
    ErrorModel::DuplicateAttribute {
        resource_type: "User"@,
        attribute: "userName"@,
        value: name,
        tenant_id: tenant,
    }
}

/// The error when a resource count reaches its limit.
pub open spec fn limit_error(kind: Seq<char>, count: nat, max: nat) -> ErrorModel {
    ErrorModel::Internal {
        message: kind + " limit exceeded: "@ + decimal(count) + "/"@ + decimal(max),
    }
}

/// The error for a version that does not match the stored one.
pub open spec fn mismatch_error(expected: Seq<char>, current: Seq<char>) -> ErrorModel {
    ErrorModel::PreconditionFailed {
        message: "Version mismatch: expected "@ + expected + ", got "@ + current,
    }
}

/// The error for data that is not a JSON object.
pub open spec fn not_object_error(message: Seq<char>) -> ErrorModel {
    ErrorModel::InvalidData { message }
}

/// A stored document as a versioned resource.
pub open spec fn versioned_of(resource_type: Seq<char>, s: StoredModel) -> VersionedModel {
    VersionedModel { resource_type, data: s.data, version: version_text(doc_version(s.data)) }
}

/// The resources listed for a tenant and type, in listing order.
pub open spec fn listing(
    store: Map<KeyModel, StoredModel>,
    ids: Seq<Seq<char>>,
    tenant: Seq<char>,
    resource_type: Seq<char>,
) -> Seq<VersionedModel> {
    Seq::new(ids.len(), |i: int| versioned_of(resource_type, store[(tenant, resource_type, ids[i])]))
}

/// The page of `items` selected by a query: `start_index` is 1-based (0 is
/// taken as 1), `count` bounds the number of items.
pub open spec fn paginate<T>(items: Seq<T>, query: Option<ListQuery>) -> Seq<T> {
    match query {
        None => items,
        Some(q) => {
            let after_start = match q.start_index {
                Some(si) => {
                    let start: int = if si == 0 { 0 } else { si - 1 };
                    if start < items.len() {
                        items.skip(start)
                    } else {
                        Seq::empty()
                    }
                },
                None => items,
            };
            match q.count {
                Some(c) => if c < after_start.len() {
                    after_start.take(c as int)
                } else {
                    after_start
                },
                None => after_start,
            }
        },
    }
}

/// The text of an optional expected version.
pub open spec fn expected_view(v: Option<&RawVersion>) -> Option<Seq<char>> {
    match v {
        Some(x) => Some(x@),
        None => None,
    }
}

/// The view of an optional string slice.
pub open spec fn opt_str_view(s: Option<&str>) -> Option<Seq<char>> {
    match s {
        Some(x) => Some(x@),
        None => None,
    }
}

/// Whether a document's attribute holds the string `value`.
pub open spec fn attribute_matches(data: Json, attribute: Seq<char>, value: Seq<char>) -> bool {
    data.get_str(attribute) == Some(value)
}

/// The ids of an id sequence whose documents match an attribute value.
pub open spec fn matching_ids(
    store: Map<KeyModel, StoredModel>,
    ids: Seq<Seq<char>>,
    tenant: Seq<char>,
    resource_type: Seq<char>,
    attribute: Seq<char>,
    value: Seq<char>,
) -> Seq<Seq<char>> {
    ids.filter(|id: Seq<char>| attribute_matches(store[(tenant, resource_type, id)].data, attribute, value))
}

/// Resource provider over in-memory storage.
pub struct StandardResourceProvider {
    storage: InMemoryStorage,
}

impl StandardResourceProvider {
    /// The stored documents by key.
    pub closed spec fn store(&self) -> Map<KeyModel, StoredModel> {
        self.storage@
    }

    /// The storage the provider works on.
    pub closed spec fn backing(&self) -> InMemoryStorage {
        self.storage
    }

    /// The provider's ids are those of its storage.
    pub proof fn lemma_backing_ids(&self)
        ensures
            forall|t: Seq<char>, rt: Seq<char>| #[trigger] self.ids(t, rt) == self.backing().ids(t, rt),
            self.store() == self.backing()@,
    {
    }

    /// The ids of a tenant's resources of a type, in listing order.
    pub closed spec fn ids(&self, tenant: Seq<char>, resource_type: Seq<char>) -> Seq<Seq<char>> {
        self.storage.ids(tenant, resource_type)
    }

    /// A provider over `storage`, which may already hold documents.
    pub fn new(storage: InMemoryStorage) -> (r: StandardResourceProvider)
        ensures
            r.store() == storage@,
            r.backing() == storage,
            forall|t: Seq<char>, rt: Seq<char>| #[trigger] r.ids(t, rt) == storage.ids(t, rt),
            storage@ == Map::<KeyModel, StoredModel>::empty() ==> forall|t: Seq<char>, rt: Seq<char>|
                #[trigger] r.ids(t, rt) == Seq::<Seq<char>>::empty(),
    {
        proof {
            if storage@ == Map::<KeyModel, StoredModel>::empty() {
                assert forall|t: Seq<char>, rt: Seq<char>| #[trigger] storage.ids(t, rt) == Seq::<Seq<char>>::empty() by {
                    storage.lemma_ids(t, rt);
                    if storage.ids(t, rt).len() > 0 {
                        assert(storage@.contains_key((t, rt, storage.ids(t, rt)[0])));
                    }
                }
            }
        }
        StandardResourceProvider { storage }
    }

    /// A provider over empty storage.
    pub fn new_in_memory() -> (r: StandardResourceProvider)
        ensures
            r.store() == Map::<KeyModel, StoredModel>::empty(),
            forall|t: Seq<char>, rt: Seq<char>| #[trigger] r.ids(t, rt) == Seq::<Seq<char>>::empty(),
    {
        StandardResourceProvider { storage: InMemoryStorage::new() }
    }

    /// Removes every stored resource.
    pub fn clear(&mut self)
        ensures
            final(self).store() == Map::<KeyModel, StoredModel>::empty(),
            forall|t: Seq<char>, rt: Seq<char>| #[trigger] final(self).ids(t, rt) == Seq::<Seq<char>>::empty(),
    {
        let mut storage = InMemoryStorage::new();
        std::mem::swap(&mut storage, &mut self.storage);
        storage.clear();
        self.storage = storage;
    }

    /// Statistics of the stored data: the tenants that hold a resource, the
    /// number of resources (capped at the largest `usize`) and the resource
    /// types held by some tenant, each listed once.
    pub fn get_stats(&self) -> (r: InMemoryStats)
        ensures
            r.tenant_count == self.backing().tenant_seq().filter(
                |t: Seq<char>| holds_resources(self.backing(), t),
            ).len(),
            r.total_resources == saturated(storage_total(self.backing(), self.backing().tenant_seq())),
            self.backing().tenant_seq().no_duplicates(),
            r.resource_type_count == r.resource_types@.len(),
            distinct_texts(r.resource_types@),
            forall|rt: Seq<char>| stored_type(self.backing(), rt) <==> lists_text(r.resource_types@, rt),
            (forall|t: Seq<char>, rt: Seq<char>| #[trigger] self.ids(t, rt).len() == 0) ==> (r.tenant_count == 0
                && r.total_resources == 0 && r.resource_type_count == 0),
    {
        let (tenant_count, total_resources, resource_types) = self.storage.stats();
        let resource_type_count = resource_types.len();
        proof {
            if forall|t: Seq<char>, rt: Seq<char>| #[trigger] self.ids(t, rt).len() == 0 {
                assert forall|t: Seq<char>, rt: Seq<char>| #[trigger] self.storage.ids(t, rt).len() == 0 by {
                    assert(self.ids(t, rt).len() == 0);
                }
                lemma_empty_listings(self.storage, self.storage.tenant_seq());
                let ghost keep = |t: Seq<char>| holds_resources(self.backing(), t);
                let ghost f = self.backing().tenant_seq().filter(keep);
                if f.len() > 0 {
                    self.backing().tenant_seq().filter_lemma(keep);
                    assert(keep(f[0]));
                }
                assert(f.len() == 0);
                if resource_types@.len() > 0 {
                    assert(lists_text(resource_types@, resource_types@[0]@));
                    assert(stored_type(self.backing(), resource_types@[0]@));
                }
                assert(resource_type_count == 0);
                assert(storage_total(self.backing(), self.backing().tenant_seq()) == 0);
                assert(total_resources == 0);
                assert(tenant_count == 0);
            }
        }
        InMemoryStats { tenant_count, total_resources, resource_type_count, resource_types }
    }

    /// The context of a single-tenant request: no tenant, no user, no
    /// metadata, and the given request id (a fresh one when none is given).
    pub open spec fn single_tenant_context(ctx: RequestContext, request_id: Option<String>) -> bool {
        &&& ctx.tenant_context is None
        &&& ctx.user_context is None
        &&& ctx.metadata@ == Map::<Seq<char>, String>::empty()
        &&& match request_id {
            Some(id) => ctx.request_id == id,
            None => is_uuid_v4_text(ctx.request_id@),
        }
    }

    fn single_tenant_request(request_id: Option<String>) -> (r: RequestContext)
        ensures
            Self::single_tenant_context(r, request_id),
    {
        match request_id {
            Some(id) => RequestContext::with_id(id),
            None => RequestContext::with_generated_id(),
        }
    }

    /// Creates a resource in a single-tenant request.
    pub fn create_single_tenant(&mut self, resource_type: &str, data: JsonValue, request_id: Option<String>) -> (r: Result<
        VersionedResource,
        ProviderError,
    >)
        ensures
            exists|ctx: RequestContext, generated_id: Seq<char>, now: Seq<char>|
                Self::single_tenant_context(ctx, request_id) && is_uuid_v4_text(generated_id) && #[trigger] Self::create_outcome(
                    *old(self),
                    *final(self),
                    r,
                    ctx,
                    resource_type@,
                    data@,
                    generated_id,
                    now,
                ),
    {
        let ghost rid = request_id;
        let context = Self::single_tenant_request(request_id);
        let r = self.create_resource(resource_type, data, &context);
        assert(Self::single_tenant_context(context, rid));
        r
    }

    /// Reads a resource in a single-tenant request.
    pub fn get_single_tenant(&self, resource_type: &str, id: &str, request_id: Option<String>) -> (r: Result<
        Option<VersionedResource>,
        ProviderError,
    >)
        ensures
            exists|ctx: RequestContext|
                Self::single_tenant_context(ctx, request_id) && #[trigger] self.get_outcome(r, ctx, resource_type@, id@),
    {
        let ghost rid = request_id;
        let context = Self::single_tenant_request(request_id);
        let r = self.get_resource(resource_type, id, &context);
        assert(Self::single_tenant_context(context, rid));
        r
    }

    /// Replaces a resource in a single-tenant request.
    pub fn update_single_tenant(
        &mut self,
        resource_type: &str,
        id: &str,
        data: JsonValue,
        expected_version: Option<&RawVersion>,
        request_id: Option<String>,
    ) -> (r: Result<VersionedResource, ProviderError>)
        ensures
            exists|ctx: RequestContext, now: Seq<char>|
                Self::single_tenant_context(ctx, request_id) && #[trigger] Self::update_outcome(
                    *old(self),
                    *final(self),
                    r,
                    ctx,
                    resource_type@,
                    id@,
                    data@,
                    expected_view(expected_version),
                    now,
                ),
    {
        let ghost rid = request_id;
        let context = Self::single_tenant_request(request_id);
        let r = self.update_resource(resource_type, id, data, expected_version, &context);
        assert(Self::single_tenant_context(context, rid));
        r
    }

    /// Deletes a resource in a single-tenant request.
    pub fn delete_single_tenant(
        &mut self,
        resource_type: &str,
        id: &str,
        expected_version: Option<&RawVersion>,
        request_id: Option<String>,
    ) -> (r: Result<(), ProviderError>)
        ensures
            exists|ctx: RequestContext|
                Self::single_tenant_context(ctx, request_id) && #[trigger] Self::delete_outcome(
                    *old(self),
                    *final(self),
                    r,
                    ctx,
                    resource_type@,
                    id@,
                    expected_view(expected_version),
                ),
    {
        let ghost rid = request_id;
        let context = Self::single_tenant_request(request_id);
        let r = self.delete_resource(resource_type, id, expected_version, &context);
        assert(Self::single_tenant_context(context, rid));
        r
    }

    /// The resources of a type in a tenant, in listing order.
    pub fn list_resources_in_tenant(&self, tenant_id: &str, resource_type: &str) -> (r: Vec<Resource>)
        ensures
            r@.len() == self.ids(tenant_id@, resource_type@).len(),
            forall|i: int|
                0 <= i < r@.len() ==> (#[trigger] r@[i]).resource_type@ == resource_type@ && r@[i].data@
                    == self.store()[(tenant_id@, resource_type@, self.ids(tenant_id@, resource_type@)[i])].data,
    {
        let entries = self.storage.list(tenant_id, resource_type);
        let mut out: Vec<Resource> = Vec::new();
        let mut i: usize = 0;
        while i < entries.len()
            invariant
                i <= entries@.len(),
                entries@.len() == self.ids(tenant_id@, resource_type@).len(),
                forall|j: int|
                    0 <= j < entries@.len() ==> (#[trigger] entries@[j]).0@ == self.ids(tenant_id@, resource_type@)[j]
                        && entries@[j].1@ == self.store()[(tenant_id@, resource_type@, entries@[j].0@)],
                out@.len() == i,
                forall|j: int|
                    0 <= j < i ==> (#[trigger] out@[j]).resource_type@ == resource_type@ && out@[j].data@
                        == self.store()[(tenant_id@, resource_type@, self.ids(tenant_id@, resource_type@)[j])].data,
            decreases entries@.len() - i,
        {
            out.push(Resource::new(resource_type.to_string(), entries[i].1.data.deep_clone()));
            i = i + 1;
        }
        out
    }

    /// The number of resources of a type in a tenant.
    pub fn count_resources_for_tenant(&self, tenant_id: &str, resource_type: &str) -> (r: usize)
        ensures
            r == self.ids(tenant_id@, resource_type@).len(),
    {
        self.storage.count(tenant_id, resource_type)
    }

    /// The check that the resource limit of the tenant allows one more.
    pub open spec fn limit_check(
        &self,
        context: RequestContext,
        resource_type: Seq<char>,
    ) -> Option<ErrorModel> {
        let tenant = effective_tenant(context);
        match context.tenant_context {
            Some(tc) => if resource_type == "User"@ {
                match tc.permissions.max_users {
                    Some(max) => if self.ids(tenant, "User"@).len() >= max {
                        Some(limit_error("User"@, self.ids(tenant, "User"@).len(), max as nat))
                    } else {
                        None
                    },
                    None => None,
                }
            } else if resource_type == "Group"@ {
                match tc.permissions.max_groups {
                    Some(max) => if self.ids(tenant, "Group"@).len() >= max {
                        Some(limit_error("Group"@, self.ids(tenant, "Group"@).len(), max as nat))
                    } else {
                        None
                    },
                    None => None,
                }
            } else {
                None
            },
            None => None,
        }
    }

    /// The first check that refuses a create, if any.
    pub open spec fn create_check(
        &self,
        context: RequestContext,
        resource_type: Seq<char>,
        data: Json,
        generated_id: Seq<char>,
    ) -> Option<ErrorModel> {
        let tenant = effective_tenant(context);
        let d = with_generated_id(data, generated_id);
        if !context_permits(context, "create"@) {
            Some(refused_error(context, "create"@))
        } else if self.limit_check(context, resource_type) is Some {
            self.limit_check(context, resource_type)
        } else if !(d is Object) {
            Some(not_object_error("Failed to create resource: resource data must be a JSON object"@))
        } else if resource_type == "User"@ && d.get_str("userName"@) is Some && username_taken(
            self.store(),
            tenant,
            d.get_str("userName"@)->0,
            None,
        ) {
            Some(duplicate_error(tenant, d.get_str("userName"@)->0))
        } else {
            None
        }
    }

    /// Every listing is as it was.
    pub open spec fn listings_kept(old_p: StandardResourceProvider, new_p: StandardResourceProvider) -> bool {
        forall|t: Seq<char>, rt: Seq<char>| #[trigger] new_p.ids(t, rt) == old_p.ids(t, rt)
    }

    /// The listings after a document is stored under `(tenant, rt, id)`:
    /// other listings are as they were, and the id joins the end of its
    /// listing unless it is already there.
    pub open spec fn listings_after_put(
        old_p: StandardResourceProvider,
        new_p: StandardResourceProvider,
        tenant: Seq<char>,
        rt: Seq<char>,
        id: Seq<char>,
    ) -> bool {
        &&& forall|t: Seq<char>, r2: Seq<char>| (t, r2) != (tenant, rt) ==> #[trigger] new_p.ids(t, r2) == old_p.ids(t, r2)
        &&& new_p.ids(tenant, rt) == if old_p.ids(tenant, rt).contains(id) {
            old_p.ids(tenant, rt)
        } else {
            old_p.ids(tenant, rt).push(id)
        }
    }

    /// The listings after the document under `(tenant, rt, id)` is removed:
    /// other listings are as they were, and that listing holds the same ids
    /// but `id`.
    pub open spec fn listings_after_remove(
        old_p: StandardResourceProvider,
        new_p: StandardResourceProvider,
        tenant: Seq<char>,
        rt: Seq<char>,
        id: Seq<char>,
    ) -> bool {
        &&& forall|t: Seq<char>, r2: Seq<char>| (t, r2) != (tenant, rt) ==> #[trigger] new_p.ids(t, r2) == old_p.ids(t, r2)
        &&& forall|x: Seq<char>| #[trigger] new_p.ids(tenant, rt).contains(x) <==> (old_p.ids(tenant, rt).contains(x) && x != id)
    }

    /// The outcome of a create with the given generated id and timestamp.
    pub open spec fn create_outcome(
        old_p: StandardResourceProvider,
        new_p: StandardResourceProvider,
        r: Result<VersionedResource, ProviderError>,
        context: RequestContext,
        resource_type: Seq<char>,
        data: Json,
        generated_id: Seq<char>,
        now: Seq<char>,
    ) -> bool {
        let d = with_generated_id(data, generated_id);
        let stored = created_doc(d, resource_type, now, doc_version(d));
        match old_p.create_check(context, resource_type, data, generated_id) {
            Some(e) => r matches Err(err) && err@ == e && new_p.store() == old_p.store() && Self::listings_kept(
                old_p,
                new_p,
            ),
            None => r matches Ok(vr) && vr@ == VersionedModel {
                resource_type,
                data: stored,
                version: version_text(doc_version(stored)),
            } && new_p.store() == old_p.store().insert(
                (effective_tenant(context), resource_type, doc_id(d)),
                StoredModel { data: stored, version: doc_version(stored) },
            ) && Self::listings_after_put(
                old_p,
                new_p,
                effective_tenant(context),
                resource_type,
                doc_id(d),
            ),
        }
    }

    fn effective_tenant_id(context: &RequestContext) -> (r: String)
        ensures
            r@ == effective_tenant(*context),
    {
        match context.tenant_id() {
            Some(t) => t.clone(),
            None => "default".to_string(),
        }
    }

    fn limit_message(kind: &str, count: usize, max: usize) -> (r: String)
        ensures
            r@ == kind@ + " limit exceeded: "@ + decimal(count as nat) + "/"@ + decimal(max as nat),
    {
        let a = concat(kind, " limit exceeded: ");
        let b = concat(a.as_str(), decimal_string(count as u64).as_str());
        let c = concat(b.as_str(), "/");
        concat(c.as_str(), decimal_string(max as u64).as_str())
    }

    fn check_limits(&self, context: &RequestContext, resource_type: &str, tenant_id: &String) -> (r: Result<(), ProviderError>)
        requires
            tenant_id@ == effective_tenant(*context),
        ensures
            match self.limit_check(*context, resource_type@) {
                Some(e) => r matches Err(err) && err@ == e,
                None => r is Ok,
            },
    {
        match &context.tenant_context {
            Some(tc) => {
                if str_eq(resource_type, "User") {
                    match tc.permissions.max_users {
                        Some(max) => {
                            let c = self.storage.count(tenant_id.as_str(), "User");
                            if c >= max {
                                return Err(ProviderError::Internal { message: Self::limit_message("User", c, max) });
                            }
                        },
                        None => {},
                    }
                } else if str_eq(resource_type, "Group") {
                    match tc.permissions.max_groups {
                        Some(max) => {
                            let c = self.storage.count(tenant_id.as_str(), "Group");
                            if c >= max {
                                return Err(ProviderError::Internal { message: Self::limit_message("Group", c, max) });
                            }
                        },
                        None => {},
                    }
                }
                Ok(())
            },
            None => Ok(()),
        }
    }

    /// Fails when a User of the tenant other than `exclude_id` has `userName`
    /// equal to `username`.
    pub fn check_username_duplicate(&self, tenant_id: &str, username: &str, exclude_id: Option<&str>) -> (r: Result<(), ProviderError>)
        ensures
            if username_taken(self.store(), tenant_id@, username@, opt_str_view(exclude_id)) {
                r matches Err(e) && e@ == duplicate_error(tenant_id@, username@)
            } else {
                r is Ok
            },
    {
        let ghost excl: Option<Seq<char>> = opt_str_view(exclude_id);
        let entries = self.storage.list(tenant_id, "User");
        proof {
            self.storage.lemma_ids(tenant_id@, "User"@);
        }
        let mut i: usize = 0;
        while i < entries.len()
            invariant
                excl == opt_str_view(exclude_id),
                i <= entries@.len(),
                entries@.len() == self.storage.ids(tenant_id@, "User"@).len(),
                forall|j: int|
                    0 <= j < entries@.len() ==> (#[trigger] entries@[j]).0@ == self.storage.ids(tenant_id@, "User"@)[j]
                        && entries@[j].1@ == self.storage@[(tenant_id@, "User"@, entries@[j].0@)],
                forall|j: int| 0 <= j < self.storage.ids(tenant_id@, "User"@).len() ==> self.storage@.contains_key(
                    (tenant_id@, "User"@, #[trigger] self.storage.ids(tenant_id@, "User"@)[j]),
                ),
                forall|j: int| 0 <= j < i ==> !(self.storage@[(tenant_id@, "User"@, (#[trigger] entries@[j]).0@)].data.get_str("userName"@) == Some(username@)
                    && excl != Some(entries@[j].0@)),
            decreases entries@.len() - i,
        {
            let (key, stored) = (&entries[i].0, &entries[i].1);
            let same_name = match stored.data.get_str("userName") {
                Some(n) => str_eq(n.as_str(), username),
                None => false,
            };
            let excluded = match exclude_id {
                Some(x) => str_eq(key.as_str(), x),
                None => false,
            };
            proof {
                assert(self.storage@.contains_key((tenant_id@, "User"@, self.storage.ids(tenant_id@, "User"@)[i as int])));
                assert(same_name == (stored.data@.get_str("userName"@) == Some(username@)));
                assert(excluded == (excl == Some(key@)));
            }
            if same_name && !excluded {
                return Err(ProviderError::DuplicateAttribute {
                    resource_type: "User".to_string(),
                    attribute: "userName".to_string(),
                    value: username.to_string(),
                    tenant_id: tenant_id.to_string(),
                });
            }
            i = i + 1;
        }
        proof {
            assert forall|id: Seq<char>| #![trigger self.storage@.contains_key((tenant_id@, "User"@, id))]
                self.storage@.contains_key((tenant_id@, "User"@, id)) implies !(self.storage@[(tenant_id@, "User"@, id)].data.get_str("userName"@) == Some(username@) && excl != Some(id)) by {
                let ids = self.storage.ids(tenant_id@, "User"@);
                assert(ids.contains(id));
                let j = choose|j: int| 0 <= j < ids.len() && ids[j] == id;
                assert(entries@[j].0@ == id);
            }
        }
        Ok(())
    }

    fn creation_meta_value(resource_type: &str, id: &str, now: &str, v: u64) -> (r: JsonValue)
        ensures
            r@ == creation_meta(resource_type@, id@, now@, v),
    {
        let loc1 = concat("https://example.com/scim/v2", "/");
        let loc2 = concat(loc1.as_str(), resource_type);
        let loc3 = concat(loc2.as_str(), "/");
        let loc = concat(loc3.as_str(), id);
        let e1 = concat("W/\"", decimal_string(v).as_str());
        let etag = concat(e1.as_str(), "\"");
        proof {
            reveal_strlit("https://example.com/scim/v2");
        }
        JsonValue::object().with("resourceType", JsonValue::text(resource_type)).with(
            "created",
            JsonValue::text(now),
        ).with("lastModified", JsonValue::text(now)).with("location", JsonValue::Str(loc)).with(
            "version",
            JsonValue::Str(etag),
        )
    }

    /// Creates a resource; `generated_id` is used when the data has no `id`,
    /// and `now` is the creation time written into `meta`.
    pub fn create_resource_with(
        &mut self,
        resource_type: &str,
        data: JsonValue,
        context: &RequestContext,
        generated_id: &str,
        now: &str,
    ) -> (r: Result<VersionedResource, ProviderError>)
        ensures
            Self::create_outcome(*old(self), *final(self), r, *context, resource_type@, data@, generated_id@, now@),
    {
        let tenant_id = Self::effective_tenant_id(context);
        match context.validate_operation("create") {
            Ok(()) => {},
            Err(m) => {
                return Err(ProviderError::Internal { message: m });
            },
        }
        match self.check_limits(context, resource_type, &tenant_id) {
            Ok(()) => {},
            Err(e) => {
                return Err(e);
            },
        }
        let mut data = data;
        if data.get("id").is_none() {
            data.insert("id".to_string(), JsonValue::text(generated_id));
        }
        if !data.is_object() {
            return Err(ProviderError::InvalidData {
                message: "Failed to create resource: resource data must be a JSON object".to_string(),
            });
        }
        if str_eq(resource_type, "User") {
            match data.get_str("userName") {
                Some(u) => {
                    match self.check_username_duplicate(tenant_id.as_str(), u.as_str(), None) {
                        Ok(()) => {},
                        Err(e) => {
                            return Err(e);
                        },
                    }
                },
                None => {},
            }
        }
        let content_version = version_of(&data);
        let id = match data.get_str("id") {
            Some(s) => s.clone(),
            None => "unknown".to_string(),
        };
        let meta = Self::creation_meta_value(resource_type, id.as_str(), now, content_version);
        data.insert("meta".to_string(), meta);
        let version = version_of(&data);
        let returned = data.deep_clone();
        let mut storage = InMemoryStorage::new();
        std::mem::swap(&mut storage, &mut self.storage);
        storage.put(tenant_id.as_str(), resource_type, id.as_str(), data, version);
        self.storage = storage;
        Ok(VersionedResource {
            resource: Resource::new(resource_type.to_string(), returned),
            version: RawVersion { value: decimal_string(version) },
        })
    }

    /// Creates a resource, generating an id when the data has none and
    /// stamping the current time into `meta`.
    pub fn create_resource(&mut self, resource_type: &str, data: JsonValue, context: &RequestContext) -> (r: Result<VersionedResource, ProviderError>)
        ensures
            exists|generated_id: Seq<char>, now: Seq<char>|
                is_uuid_v4_text(generated_id) && rfc3339_instant(now) is Some && Self::create_outcome(*old(self), *final(self), r, *context, resource_type@, data@, generated_id, now),
    {
        let generated = new_uuid_string();
        let now = now_rfc3339();
        let r = self.create_resource_with(resource_type, data, context, generated.as_str(), now.as_str());
        assert(Self::create_outcome(*old(self), *self, r, *context, resource_type@, data@, generated@, now@));
        r
    }

    /// Builds a versioned resource from a stored document.
    fn versioned(resource_type: &str, data: &JsonValue) -> (r: VersionedResource)
        ensures
            forall|v: u64| r@ == #[trigger] versioned_of(resource_type@, StoredModel { data: data@, version: v }),
    {
        let version = version_of(data);
        VersionedResource {
            resource: Resource::new(resource_type.to_string(), data.deep_clone()),
            version: RawVersion { value: decimal_string(version) },
        }
    }

    /// Fails unless the stored version of the key is `expected`.
    fn check_version(&self, tenant_id: &str, resource_type: &str, id: &str, expected: &RawVersion) -> (r: Result<(), ProviderError>)
        ensures
            !self.store().contains_key((tenant_id@, resource_type@, id@)) ==> (r matches Err(e) && e@
                == (ErrorModel::NotFound { resource_type: resource_type@, id: id@ })),
            self.store().contains_key((tenant_id@, resource_type@, id@)) && version_text(
                doc_version(self.store()[(tenant_id@, resource_type@, id@)].data),
            ) != expected@ ==> (r matches Err(e) && e@ == mismatch_error(
                expected@,
                version_text(doc_version(self.store()[(tenant_id@, resource_type@, id@)].data)),
            )),
            self.store().contains_key((tenant_id@, resource_type@, id@)) && version_text(
                doc_version(self.store()[(tenant_id@, resource_type@, id@)].data),
            ) == expected@ ==> r is Ok,
    {
        match self.storage.get(tenant_id, resource_type, id) {
            Some(stored) => {
                let current = decimal_string(version_of(&stored.data));
                if str_eq(current.as_str(), expected.as_str()) {
                    Ok(())
                } else {
                    let a = concat("Version mismatch: expected ", expected.as_str());
                    let b = concat(a.as_str(), ", got ");
                    Err(ProviderError::PreconditionFailed { message: concat(b.as_str(), current.as_str()) })
                }
            },
            None => Err(ProviderError::NotFound { resource_type: resource_type.to_string(), id: id.to_string() }),
        }
    }

    /// The stored resource under a key, when the request may read.
    pub open spec fn get_outcome(
        &self,
        r: Result<Option<VersionedResource>, ProviderError>,
        context: RequestContext,
        resource_type: Seq<char>,
        id: Seq<char>,
    ) -> bool {
        let key = (effective_tenant(context), resource_type, id);
        if !context_permits(context, "read"@) {
            r matches Err(e) && e@ == refused_error(context, "read"@)
        } else {
            r matches Ok(o) && match o {
                Some(vr) => self.store().contains_key(key) && vr@ == versioned_of(resource_type, self.store()[key]),
                None => !self.store().contains_key(key),
            }
        }
    }

    /// The resource stored under the request's tenant, the type and the id.
    pub fn get_resource(&self, resource_type: &str, id: &str, context: &RequestContext) -> (r: Result<Option<VersionedResource>, ProviderError>)
        ensures
            self.get_outcome(r, *context, resource_type@, id@),
    {
        let tenant_id = Self::effective_tenant_id(context);
        match context.validate_operation("read") {
            Ok(()) => {},
            Err(m) => {
                return Err(ProviderError::Internal { message: m });
            },
        }
        match self.storage.get(tenant_id.as_str(), resource_type, id) {
            Some(stored) => Ok(Some(Self::versioned(resource_type, &stored.data))),
            None => Ok(None),
        }
    }

    /// The same as `get_resource`.
    pub fn get_versioned_resource(&self, resource_type: &str, id: &str, context: &RequestContext) -> (r: Result<Option<VersionedResource>, ProviderError>)
        ensures
            self.get_outcome(r, *context, resource_type@, id@),
    {
        self.get_resource(resource_type, id, context)
    }

    /// Whether a resource is stored under the request's tenant, the type and the id.
    pub fn resource_exists(&self, resource_type: &str, id: &str, context: &RequestContext) -> (r: Result<bool, ProviderError>)
        ensures
            r == Ok::<bool, ProviderError>(self.store().contains_key((effective_tenant(*context), resource_type@, id@))),
    {
        let tenant_id = Self::effective_tenant_id(context);
        Ok(self.storage.contains(tenant_id.as_str(), resource_type, id))
    }

    /// The first check that refuses an update, if any.
    pub open spec fn update_check(
        &self,
        context: RequestContext,
        resource_type: Seq<char>,
        id: Seq<char>,
        data: Json,
        expected: Option<Seq<char>>,
    ) -> Option<ErrorModel> {
        let tenant = effective_tenant(context);
        let key = (tenant, resource_type, id);
        let d = data.set("id"@, Json::Str(id));
        if !context_permits(context, "update"@) {
            Some(refused_error(context, "update"@))
        } else if expected is Some && !self.store().contains_key(key) {
            Some(ErrorModel::NotFound { resource_type, id })
        } else if expected is Some && version_text(doc_version(self.store()[key].data)) != expected->0 {
            Some(mismatch_error(expected->0, version_text(doc_version(self.store()[key].data))))
        } else if !(d is Object) {
            Some(not_object_error("Failed to update resource: resource data must be a JSON object"@))
        } else if resource_type == "User"@ && d.get_str("userName"@) is Some && username_taken(
            self.store(),
            tenant,
            d.get_str("userName"@)->0,
            Some(id),
        ) {
            Some(duplicate_error(tenant, d.get_str("userName"@)->0))
        } else if !self.store().contains_key(key) {
            Some(ErrorModel::ResourceNotFound { resource_type, id, tenant_id: tenant })
        } else {
            None
        }
    }

    /// The outcome of an update stamped with time `now`.
    pub open spec fn update_outcome(
        old_p: StandardResourceProvider,
        new_p: StandardResourceProvider,
        r: Result<VersionedResource, ProviderError>,
        context: RequestContext,
        resource_type: Seq<char>,
        id: Seq<char>,
        data: Json,
        expected: Option<Seq<char>>,
        now: Seq<char>,
    ) -> bool {
        let d = data.set("id"@, Json::Str(id));
        let stored = updated_doc(d, now, doc_version(d));
        match old_p.update_check(context, resource_type, id, data, expected) {
            Some(e) => r matches Err(err) && err@ == e && new_p.store() == old_p.store() && Self::listings_kept(
                old_p,
                new_p,
            ),
            None => r matches Ok(vr) && vr@ == VersionedModel {
                resource_type,
                data: stored,
                version: version_text(doc_version(stored)),
            } && new_p.store() == old_p.store().insert(
                (effective_tenant(context), resource_type, id),
                StoredModel { data: stored, version: doc_version(stored) },
            ) && Self::listings_kept(old_p, new_p),
        }
    }

    fn refresh_meta(data: &mut JsonValue, now: &str, v: u64)
        ensures
            final(data)@ == updated_doc(old(data)@, now@, v),
    {
        let refreshed = match data.get("meta") {
            Some(m) => {
                if m.is_object() {
                    let e1 = concat("W/\"", decimal_string(v).as_str());
                    let etag = concat(e1.as_str(), "\"");
                    Some(m.deep_clone().with("lastModified", JsonValue::text(now)).with("version", JsonValue::Str(etag)))
                } else {
                    None
                }
            },
            None => None,
        };
        match refreshed {
            Some(m) => data.insert("meta".to_string(), m),
            None => {},
        }
    }

    /// Stores `data` under a key with the version of its content.
    fn store_new_version(&mut self, tenant_id: &str, resource_type: &str, id: &str, data: JsonValue) -> (v: u64)
        ensures
            v == doc_version(data@),
            final(self).store() == old(self).store().insert(
                (tenant_id@, resource_type@, id@),
                StoredModel { data: data@, version: v },
            ),
            Self::listings_after_put(*old(self), *final(self), tenant_id@, resource_type@, id@),
    {
        let version = version_of(&data);
        let mut storage = InMemoryStorage::new();
        std::mem::swap(&mut storage, &mut self.storage);
        storage.put(tenant_id, resource_type, id, data, version);
        self.storage = storage;
        version
    }

    /// Replaces a resource, stamping `now` into its `meta` when it has one.
    /// With `expected_version`, the stored version must match it.
    pub fn update_resource_with(
        &mut self,
        resource_type: &str,
        id: &str,
        data: JsonValue,
        expected_version: Option<&RawVersion>,
        context: &RequestContext,
        now: &str,
    ) -> (r: Result<VersionedResource, ProviderError>)
        ensures
            Self::update_outcome(
                *old(self),
                *final(self),
                r,
                *context,
                resource_type@,
                id@,
                data@,
                expected_view(expected_version),
                now@,
            ),
    {
        let tenant_id = Self::effective_tenant_id(context);
        match context.validate_operation("update") {
            Ok(()) => {},
            Err(m) => {
                return Err(ProviderError::Internal { message: m });
            },
        }
        match expected_version {
            Some(ev) => match self.check_version(tenant_id.as_str(), resource_type, id, ev) {
                Ok(()) => {},
                Err(e) => {
                    return Err(e);
                },
            },
            None => {},
        }
        let mut data = data;
        data.insert("id".to_string(), JsonValue::text(id));
        if !data.is_object() {
            return Err(ProviderError::InvalidData {
                message: "Failed to update resource: resource data must be a JSON object".to_string(),
            });
        }
        if str_eq(resource_type, "User") {
            match data.get_str("userName") {
                Some(u) => {
                    match self.check_username_duplicate(tenant_id.as_str(), u.as_str(), Some(id)) {
                        Ok(()) => {},
                        Err(e) => {
                            return Err(e);
                        },
                    }
                },
                None => {},
            }
        }
        if !self.storage.contains(tenant_id.as_str(), resource_type, id) {
            return Err(ProviderError::ResourceNotFound {
                resource_type: resource_type.to_string(),
                id: id.to_string(),
                tenant_id,
            });
        }
        proof {
            self.storage.lemma_ids(tenant_id@, resource_type@);
        }
        let content_version = version_of(&data);
        Self::refresh_meta(&mut data, now, content_version);
        let returned = data.deep_clone();
        let version = self.store_new_version(tenant_id.as_str(), resource_type, id, data);
        Ok(VersionedResource {
            resource: Resource::new(resource_type.to_string(), returned),
            version: RawVersion { value: decimal_string(version) },
        })
    }

    /// Replaces a resource, stamping the current time into its `meta` when
    /// it has one. With `expected_version`, the stored version must match it.
    pub fn update_resource(
        &mut self,
        resource_type: &str,
        id: &str,
        data: JsonValue,
        expected_version: Option<&RawVersion>,
        context: &RequestContext,
    ) -> (r: Result<VersionedResource, ProviderError>)
        ensures
            exists|now: Seq<char>|
                rfc3339_instant(now) is Some && #[trigger] Self::update_outcome(
                    *old(self),
                    *final(self),
                    r,
                    *context,
                    resource_type@,
                    id@,
                    data@,
                    expected_view(expected_version),
                    now,
                ),
    {
        let now = now_rfc3339();
        let r = self.update_resource_with(resource_type, id, data, expected_version, context, now.as_str());
        assert(Self::update_outcome(*old(self), *self, r, *context, resource_type@, id@, data@, expected_view(expected_version), now@));
        r
    }

    /// The first check that refuses a delete, if any.
    pub open spec fn delete_check(
        &self,
        context: RequestContext,
        resource_type: Seq<char>,
        id: Seq<char>,
        expected: Option<Seq<char>>,
    ) -> Option<ErrorModel> {
        let tenant = effective_tenant(context);
        let key = (tenant, resource_type, id);
        if !context_permits(context, "delete"@) {
            Some(refused_error(context, "delete"@))
        } else if expected is Some && !self.store().contains_key(key) {
            Some(ErrorModel::NotFound { resource_type, id })
        } else if expected is Some && version_text(doc_version(self.store()[key].data)) != expected->0 {
            Some(mismatch_error(expected->0, version_text(doc_version(self.store()[key].data))))
        } else if !self.store().contains_key(key) {
            Some(ErrorModel::ResourceNotFound { resource_type, id, tenant_id: tenant })
        } else {
            None
        }
    }

    /// The outcome of a delete.
    pub open spec fn delete_outcome(
        old_p: StandardResourceProvider,
        new_p: StandardResourceProvider,
        r: Result<(), ProviderError>,
        context: RequestContext,
        resource_type: Seq<char>,
        id: Seq<char>,
        expected: Option<Seq<char>>,
    ) -> bool {
        match old_p.delete_check(context, resource_type, id, expected) {
            Some(e) => r matches Err(err) && err@ == e && new_p.store() == old_p.store() && Self::listings_kept(old_p, new_p),
            None => r is Ok && new_p.store() == old_p.store().remove((effective_tenant(context), resource_type, id))
                && Self::listings_after_remove(old_p, new_p, effective_tenant(context), resource_type, id),
        }
    }

    /// Deletes a resource. With `expected_version`, the stored version must match it.
    pub fn delete_resource(
        &mut self,
        resource_type: &str,
        id: &str,
        expected_version: Option<&RawVersion>,
        context: &RequestContext,
    ) -> (r: Result<(), ProviderError>)
        ensures
            Self::delete_outcome(*old(self), *final(self), r, *context, resource_type@, id@, expected_view(expected_version)),
    {
        let tenant_id = Self::effective_tenant_id(context);
        match context.validate_operation("delete") {
            Ok(()) => {},
            Err(m) => {
                return Err(ProviderError::Internal { message: m });
            },
        }
        match expected_version {
            Some(ev) => match self.check_version(tenant_id.as_str(), resource_type, id, ev) {
                Ok(()) => {},
                Err(e) => {
                    return Err(e);
                },
            },
            None => {},
        }
        if !self.storage.contains(tenant_id.as_str(), resource_type, id) {
            proof {
                assert(old(self).store().remove((tenant_id@, resource_type@, id@)) =~= old(self).store());
            }
            return Err(ProviderError::ResourceNotFound {
                resource_type: resource_type.to_string(),
                id: id.to_string(),
                tenant_id,
            });
        }
        let mut storage = InMemoryStorage::new();
        std::mem::swap(&mut storage, &mut self.storage);
        storage.delete(tenant_id.as_str(), resource_type, id);
        self.storage = storage;
        Ok(())
    }

    /// The resources of a type in the request's tenant, in listing order and
    /// paginated by the query, when the request may list.
    pub fn list_resources(&self, resource_type: &str, query: Option<&ListQuery>, context: &RequestContext) -> (r: Result<Vec<VersionedResource>, ProviderError>)
        ensures
            !context_permits(*context, "list"@) ==> (r matches Err(e) && e@ == refused_error(*context, "list"@)),
            context_permits(*context, "list"@) ==> (r matches Ok(v) && Seq::new(v@.len(), |i: int| v@[i]@) == paginate(
                listing(self.store(), self.ids(effective_tenant(*context), resource_type@), effective_tenant(*context), resource_type@),
                match query { Some(q) => Some(*q), None => None },
            )),
            context_permits(*context, "list"@) ==> self.ids(effective_tenant(*context), resource_type@).no_duplicates(),
    {
        let tenant_id = Self::effective_tenant_id(context);
        match context.validate_operation("list") {
            Ok(()) => {},
            Err(m) => {
                return Err(ProviderError::Internal { message: m });
            },
        }
        let entries = self.storage.list(tenant_id.as_str(), resource_type);
        let ghost all = listing(self.store(), self.ids(tenant_id@, resource_type@), tenant_id@, resource_type@);
        let n = entries.len();
        let mut lo: usize = 0;
        let mut hi: usize = n;
        match query {
            Some(q) => {
                match q.start_index {
                    Some(si) => {
                        let start = if si == 0 { 0 } else { si - 1 };
                        lo = if start < n { start } else { n };
                    },
                    None => {},
                }
                match q.count {
                    Some(c) => {
                        if c < n - lo {
                            hi = lo + c;
                        }
                    },
                    None => {},
                }
            },
            None => {},
        }
        let mut out: Vec<VersionedResource> = Vec::new();
        let mut i: usize = lo;
        while i < hi
            invariant
                lo <= i <= hi <= n,
                n == entries@.len(),
                all.len() == n,
                forall|j: int|
                    0 <= j < n ==> all[j] == versioned_of(resource_type@, (#[trigger] entries@[j]).1@),
                out@.len() == i - lo,
                forall|j: int| 0 <= j < out@.len() ==> (#[trigger] out@[j])@ == all[lo + j],
            decreases hi - i,
        {
            out.push(Self::versioned(resource_type, &entries[i].1.data));
            i = i + 1;
        }
        proof {
            let page = paginate(all, match query { Some(q) => Some(*q), None => None });
            assert(page =~= all.subrange(lo as int, hi as int));
            assert(Seq::new(out@.len(), |i: int| out@[i]@) =~= all.subrange(lo as int, hi as int));
        }
        Ok(out)
    }

    /// The resources of a type in the request's tenant whose attribute holds
    /// the given string, in listing order.
    pub fn find_resources_by_attribute(
        &self,
        resource_type: &str,
        attribute_name: &str,
        attribute_value: &str,
        context: &RequestContext,
    ) -> (r: Result<Vec<VersionedResource>, ProviderError>)
        ensures
            r matches Ok(v) && Seq::new(v@.len(), |i: int| v@[i]@) == listing(
                self.store(),
                self.ids(effective_tenant(*context), resource_type@),
                effective_tenant(*context),
                resource_type@,
            ).filter(|m: VersionedModel| attribute_matches(m.data, attribute_name@, attribute_value@)),
    {
        let tenant_id = Self::effective_tenant_id(context);
        let entries = self.storage.list(tenant_id.as_str(), resource_type);
        let ghost all = listing(self.store(), self.ids(tenant_id@, resource_type@), tenant_id@, resource_type@);
        let ghost pred = |m: VersionedModel| attribute_matches(m.data, attribute_name@, attribute_value@);
        let mut out: Vec<VersionedResource> = Vec::new();
        let mut i: usize = 0;
        assert(all.take(0).filter(pred) =~= Seq::<VersionedModel>::empty());
        while i < entries.len()
            invariant
                i <= entries@.len(),
                all.len() == entries@.len(),
                pred == (|m: VersionedModel| attribute_matches(m.data, attribute_name@, attribute_value@)),
                forall|j: int|
                    0 <= j < entries@.len() ==> all[j] == versioned_of(resource_type@, (#[trigger] entries@[j]).1@),
                Seq::new(out@.len(), |k: int| out@[k]@) == all.take(i as int).filter(pred),
            decreases entries@.len() - i,
        {
            let ghost before = Seq::new(out@.len(), |k: int| out@[k]@);
            assert(all.take(i + 1) =~= all.take(i as int).push(all[i as int]));
            proof {
                all.take(i as int).lemma_filter_push(all[i as int], pred);
            }
            let matches = match entries[i].1.data.get_str(attribute_name) {
                Some(v) => str_eq(v.as_str(), attribute_value),
                None => false,
            };
            if matches {
                out.push(Self::versioned(resource_type, &entries[i].1.data));
                assert(Seq::new(out@.len(), |k: int| out@[k]@) =~= before.push(all[i as int]));
            } else {
                assert(Seq::new(out@.len(), |k: int| out@[k]@) =~= before);
            }
            i = i + 1;
        }
        assert(all.take(entries@.len() as int) =~= all);
        Ok(out)
    }

    /// The first check that refuses a patch, if any.
    pub open spec fn patch_check(
        &self,
        context: RequestContext,
        resource_type: Seq<char>,
        id: Seq<char>,
        patch_request: Json,
        expected: Option<Seq<char>>,
    ) -> Option<ErrorModel> {
        let key = (effective_tenant(context), resource_type, id);
        if expected is Some && !self.store().contains_key(key) {
            Some(ErrorModel::NotFound { resource_type, id })
        } else if expected is Some && version_text(doc_version(self.store()[key].data)) != expected->0 {
            Some(mismatch_error(expected->0, version_text(doc_version(self.store()[key].data))))
        } else if !context_permits(context, "read"@) {
            Some(refused_error(context, "read"@))
        } else if !self.store().contains_key(key) {
            Some(ErrorModel::NotFound { resource_type, id })
        } else {
            match patch_ops_result(self.store()[key].data, operations_of(patch_request)) {
                Err(m) => Some(ErrorModel::Internal { message: m }),
                Ok(d) => if !(d is Object) {
                    Some(not_object_error("Failed to create patched resource: resource data must be a JSON object"@))
                } else {
                    None
                },
            }
        }
    }

    /// The outcome of a patch.
    pub open spec fn patch_outcome(
        old_p: StandardResourceProvider,
        new_p: StandardResourceProvider,
        r: Result<VersionedResource, ProviderError>,
        context: RequestContext,
        resource_type: Seq<char>,
        id: Seq<char>,
        patch_request: Json,
        expected: Option<Seq<char>>,
    ) -> bool {
        match old_p.patch_check(context, resource_type, id, patch_request, expected) {
            Some(e) => r matches Err(err) && err@ == e && new_p.store() == old_p.store() && Self::listings_kept(
                old_p,
                new_p,
            ),
            None => {
                let key = (effective_tenant(context), resource_type, id);
                let d = patch_ops_result(old_p.store()[key].data, operations_of(patch_request))->Ok_0;
                r matches Ok(vr) && vr@ == VersionedModel { resource_type, data: d, version: version_text(doc_version(d)) }
                    && new_p.store() == old_p.store().insert(key, StoredModel { data: d, version: doc_version(d) })
                    && Self::listings_kept(old_p, new_p)
            },
        }
    }

    /// Applies a PATCH request (`Operations`) to a stored resource. With
    /// `expected_version`, the stored version must match it.
    pub fn patch_resource(
        &mut self,
        resource_type: &str,
        id: &str,
        patch_request: &JsonValue,
        expected_version: Option<&RawVersion>,
        context: &RequestContext,
    ) -> (r: Result<VersionedResource, ProviderError>)
        ensures
            Self::patch_outcome(*old(self), *final(self), r, *context, resource_type@, id@, patch_request@, expected_view(expected_version)),
    {
        let tenant_id = Self::effective_tenant_id(context);
        match expected_version {
            Some(ev) => match self.check_version(tenant_id.as_str(), resource_type, id, ev) {
                Ok(()) => {},
                Err(e) => {
                    return Err(e);
                },
            },
            None => {},
        }
        let current = match self.get_resource(resource_type, id, context) {
            Ok(Some(c)) => c,
            Ok(None) => {
                return Err(ProviderError::NotFound { resource_type: resource_type.to_string(), id: id.to_string() });
            },
            Err(e) => {
                return Err(e);
            },
        };
        let mut data = current.resource.data;
        match patch_request.get("Operations") {
            Some(ops) => match ops.as_array() {
                Some(items) => {
                    proof {
                        assert(Seq::new(items@.len(), |i: int| items@[i]@) =~= operations_of(patch_request@));
                    }
                    match apply_patch_operations(&mut data, items) {
                        Ok(()) => {},
                        Err(m) => {
                            return Err(ProviderError::Internal { message: m });
                        },
                    }
                },
                None => {},
            },
            None => {},
        }
        if !data.is_object() {
            return Err(ProviderError::InvalidData {
                message: "Failed to create patched resource: resource data must be a JSON object".to_string(),
            });
        }
        proof {
            self.storage.lemma_ids(tenant_id@, resource_type@);
        }
        let returned = data.deep_clone();
        let version = self.store_new_version(tenant_id.as_str(), resource_type, id, data);
        Ok(VersionedResource {
            resource: Resource::new(resource_type.to_string(), returned),
            version: RawVersion { value: decimal_string(version) },
        })
    }
}

impl StandardResourceProvider {
    /// The conflict reported when a stored version differs from the expected one.
    pub open spec fn conflict_of(expected: Seq<char>, current: u64) -> ErrorModel {
        ErrorModel::VersionConflict {
            expected,
            current: version_text(current),
            message: "Resource was modified by another client"@,
        }
    }

    fn conflict(expected: &RawVersion, current: u64) -> (r: VersionConflict)
        ensures
            (ProviderError::VersionConflict { conflict: r })@ == Self::conflict_of(expected@, current),
    {
        VersionConflict {
            expected: expected.copy(),
            current: RawVersion { value: decimal_string(current) },
            message: "Resource was modified by another client".to_string(),
        }
    }

    /// The document stored by a conditional update: the new data, keeping the
    /// stored document's string `id` when it has one.
    pub open spec fn conditional_doc(data: Json, current: Json) -> Json {
        match current.get_str("id"@) {
            Some(orig) => data.set("id"@, Json::Str(orig)),
            None => data,
        }
    }

    /// Replaces a resource if its stored version is `expected_version`.
    /// A missing resource is an error; a different version is reported as a
    /// mismatch and nothing changes.
    pub fn conditional_update(
        &mut self,
        resource_type: &str,
        id: &str,
        data: JsonValue,
        expected_version: &RawVersion,
        context: &RequestContext,
    ) -> (r: Result<ConditionalResult<VersionedResource>, ProviderError>)
        ensures
            ({
                let key = (effective_tenant(*context), resource_type@, id@);
                let old_store = old(self).store();
                if !old_store.contains_key(key) {
                    r matches Err(e) && e@ == (ErrorModel::NotFound { resource_type: resource_type@, id: id@ })
                        && final(self).store() == old_store
                } else if version_text(doc_version(old_store[key].data)) != expected_version@ {
                    r matches Ok(ConditionalResult::VersionMismatch(c))
                        && (ProviderError::VersionConflict { conflict: c })@ == Self::conflict_of(expected_version@, doc_version(old_store[key].data))
                        && final(self).store() == old_store
                } else if !(data@ is Object) {
                    r matches Err(e) && e@ == (ErrorModel::InvalidInput { message: "Failed to create updated resource: resource data must be a JSON object"@ })
                        && final(self).store() == old_store
                } else {
                    let d = Self::conditional_doc(data@, old_store[key].data);
                    r matches Ok(ConditionalResult::Success(vr))
                        && vr@ == versioned_of(resource_type@, StoredModel { data: d, version: doc_version(d) })
                        && final(self).store() == old_store.insert(key, StoredModel { data: d, version: doc_version(d) })
                }
            }),
    {
        let tenant_id = Self::effective_tenant_id(context);
        let current = match self.storage.get(tenant_id.as_str(), resource_type, id) {
            Some(c) => c,
            None => {
                return Err(ProviderError::NotFound { resource_type: resource_type.to_string(), id: id.to_string() });
            },
        };
        let current_version = version_of(&current.data);
        let current_text = decimal_string(current_version);
        if !str_eq(current_text.as_str(), expected_version.as_str()) {
            return Ok(ConditionalResult::VersionMismatch(Self::conflict(expected_version, current_version)));
        }
        if !data.is_object() {
            return Err(ProviderError::InvalidInput {
                message: "Failed to create updated resource: resource data must be a JSON object".to_string(),
            });
        }
        let mut data = data;
        match current.data.get_str("id") {
            Some(orig) => data.insert("id".to_string(), JsonValue::Str(orig.clone())),
            None => {},
        }
        let returned = data.deep_clone();
        let _ = self.store_new_version(tenant_id.as_str(), resource_type, id, data);
        Ok(ConditionalResult::Success(Self::versioned(resource_type, &returned)))
    }

    /// Deletes a resource if its stored version is `expected_version`.
    pub fn conditional_delete(
        &mut self,
        resource_type: &str,
        id: &str,
        expected_version: &RawVersion,
        context: &RequestContext,
    ) -> (r: Result<ConditionalResult<()>, ProviderError>)
        ensures
            ({
                let key = (effective_tenant(*context), resource_type@, id@);
                let old_store = old(self).store();
                if !old_store.contains_key(key) {
                    r matches Err(e) && e@ == (ErrorModel::NotFound { resource_type: resource_type@, id: id@ })
                        && final(self).store() == old_store
                } else if version_text(doc_version(old_store[key].data)) != expected_version@ {
                    r matches Ok(ConditionalResult::VersionMismatch(c))
                        && (ProviderError::VersionConflict { conflict: c })@ == Self::conflict_of(expected_version@, doc_version(old_store[key].data))
                        && final(self).store() == old_store
                } else {
                    r matches Ok(ConditionalResult::Success(())) && final(self).store() == old_store.remove(key)
                }
            }),
    {
        let tenant_id = Self::effective_tenant_id(context);
        let current_version = match self.storage.get(tenant_id.as_str(), resource_type, id) {
            Some(c) => version_of(&c.data),
            None => {
                return Err(ProviderError::NotFound { resource_type: resource_type.to_string(), id: id.to_string() });
            },
        };
        let current_text = decimal_string(current_version);
        if !str_eq(current_text.as_str(), expected_version.as_str()) {
            return Ok(ConditionalResult::VersionMismatch(Self::conflict(expected_version, current_version)));
        }
        let mut storage = InMemoryStorage::new();
        std::mem::swap(&mut storage, &mut self.storage);
        let _ = storage.delete(tenant_id.as_str(), resource_type, id);
        self.storage = storage;
        Ok(ConditionalResult::Success(()))
    }

    /// Applies a PATCH request to a resource if its stored version is `expected_version`.
    pub fn conditional_patch_resource(
        &mut self,
        resource_type: &str,
        id: &str,
        patch_request: &JsonValue,
        expected_version: &RawVersion,
        context: &RequestContext,
    ) -> (r: Result<ConditionalResult<VersionedResource>, ProviderError>)
        ensures
            ({
                let key = (effective_tenant(*context), resource_type@, id@);
                let old_store = old(self).store();
                let outcome = patch_ops_result(old_store[key].data, operations_of(patch_request@));
                if !old_store.contains_key(key) {
                    r matches Err(e) && e@ == (ErrorModel::NotFound { resource_type: resource_type@, id: id@ })
                        && final(self).store() == old_store
                } else if version_text(doc_version(old_store[key].data)) != expected_version@ {
                    r matches Ok(ConditionalResult::VersionMismatch(c))
                        && (ProviderError::VersionConflict { conflict: c })@ == Self::conflict_of(expected_version@, doc_version(old_store[key].data))
                        && final(self).store() == old_store
                } else if outcome is Err {
                    r matches Err(e) && e@ == (ErrorModel::Internal { message: outcome->Err_0 })
                        && final(self).store() == old_store
                } else if !(outcome->Ok_0 is Object) {
                    r matches Err(e) && e@ == (ErrorModel::InvalidInput { message: "Failed to deserialize patched resource: resource data must be a JSON object"@ })
                        && final(self).store() == old_store
                } else {
                    r matches Ok(ConditionalResult::Success(vr))
                        && vr@ == versioned_of(resource_type@, StoredModel { data: outcome->Ok_0, version: doc_version(outcome->Ok_0) })
                        && final(self).store() == old_store.insert(key, StoredModel { data: outcome->Ok_0, version: doc_version(outcome->Ok_0) })
                }
            }),
    {
        let tenant_id = Self::effective_tenant_id(context);
        let current = match self.storage.get(tenant_id.as_str(), resource_type, id) {
            Some(c) => c,
            None => {
                return Err(ProviderError::NotFound { resource_type: resource_type.to_string(), id: id.to_string() });
            },
        };
        let current_version = version_of(&current.data);
        let current_text = decimal_string(current_version);
        if !str_eq(current_text.as_str(), expected_version.as_str()) {
            return Ok(ConditionalResult::VersionMismatch(Self::conflict(expected_version, current_version)));
        }
        let mut data = current.data.deep_clone();
        match patch_request.get("Operations") {
            Some(ops) => match ops.as_array() {
                Some(items) => {
                    proof {
                        assert(Seq::new(items@.len(), |i: int| items@[i]@) =~= operations_of(patch_request@));
                    }
                    match apply_patch_operations(&mut data, items) {
                        Ok(()) => {},
                        Err(m) => {
                            return Err(ProviderError::Internal { message: m });
                        },
                    }
                },
                None => {},
            },
            None => {},
        }
        if !data.is_object() {
            return Err(ProviderError::InvalidInput {
                message: "Failed to deserialize patched resource: resource data must be a JSON object".to_string(),
            });
        }
        let returned = data.deep_clone();
        let _ = self.store_new_version(tenant_id.as_str(), resource_type, id, data);
        Ok(ConditionalResult::Success(Self::versioned(resource_type, &returned)))
    }
}

/// The PATCH operations of a request: its `Operations` array, or none.
pub open spec fn operations_of(patch_request: Json) -> Seq<Json> {
    match patch_request.get("Operations"@) {
        Some(Json::Array(items)) => items,
        _ => Seq::empty(),
    }
}

/// A resource read right after it was created is the resource the create returned.
pub proof fn law_get_after_create(
    old_p: StandardResourceProvider,
    new_p: StandardResourceProvider,
    r: Result<VersionedResource, ProviderError>,
    g: Result<Option<VersionedResource>, ProviderError>,
    context: RequestContext,
    resource_type: Seq<char>,
    data: Json,
    generated_id: Seq<char>,
    now: Seq<char>,
)
    requires
        StandardResourceProvider::create_outcome(old_p, new_p, r, context, resource_type, data, generated_id, now),
        r is Ok,
        context_permits(context, "read"@),
        new_p.get_outcome(g, context, resource_type, doc_id(with_generated_id(data, generated_id))),
    ensures
        g matches Ok(Some(vr)) && vr@ == r->Ok_0@,
{
}

/// A resource read right after a successful update is the resource the update returned.
pub proof fn law_get_after_update(
    old_p: StandardResourceProvider,
    new_p: StandardResourceProvider,
    r: Result<VersionedResource, ProviderError>,
    g: Result<Option<VersionedResource>, ProviderError>,
    context: RequestContext,
    resource_type: Seq<char>,
    id: Seq<char>,
    data: Json,
    expected: Option<Seq<char>>,
    now: Seq<char>,
)
    requires
        StandardResourceProvider::update_outcome(old_p, new_p, r, context, resource_type, id, data, expected, now),
        r is Ok,
        context_permits(context, "read"@),
        new_p.get_outcome(g, context, resource_type, id),
    ensures
        g matches Ok(Some(vr)) && vr@ == r->Ok_0@,
{
}

/// After a successful delete the resource can no longer be read.
pub proof fn law_get_after_delete(
    old_p: StandardResourceProvider,
    new_p: StandardResourceProvider,
    r: Result<(), ProviderError>,
    g: Result<Option<VersionedResource>, ProviderError>,
    context: RequestContext,
    resource_type: Seq<char>,
    id: Seq<char>,
    expected: Option<Seq<char>>,
)
    requires
        StandardResourceProvider::delete_outcome(old_p, new_p, r, context, resource_type, id, expected),
        r is Ok,
        context_permits(context, "read"@),
        new_p.get_outcome(g, context, resource_type, id),
    ensures
        g matches Ok(None),
{
}

/// An update that names a version other than the stored one is refused
/// with a precondition failure and changes nothing.
pub proof fn law_stale_update_refused(
    old_p: StandardResourceProvider,
    new_p: StandardResourceProvider,
    r: Result<VersionedResource, ProviderError>,
    context: RequestContext,
    resource_type: Seq<char>,
    id: Seq<char>,
    data: Json,
    expected: Seq<char>,
    now: Seq<char>,
)
    requires
        StandardResourceProvider::update_outcome(old_p, new_p, r, context, resource_type, id, data, Some(expected), now),
        context_permits(context, "update"@),
        old_p.store().contains_key((effective_tenant(context), resource_type, id)),
        version_text(doc_version(old_p.store()[(effective_tenant(context), resource_type, id)].data)) != expected,
    ensures
        r matches Err(e) && e@ is PreconditionFailed,
        new_p.store() == old_p.store(),
{
}

/// A delete that names a version other than the stored one is refused
/// with a precondition failure and changes nothing.
pub proof fn law_stale_delete_refused(
    old_p: StandardResourceProvider,
    new_p: StandardResourceProvider,
    r: Result<(), ProviderError>,
    context: RequestContext,
    resource_type: Seq<char>,
    id: Seq<char>,
    expected: Seq<char>,
)
    requires
        StandardResourceProvider::delete_outcome(old_p, new_p, r, context, resource_type, id, Some(expected)),
        context_permits(context, "delete"@),
        old_p.store().contains_key((effective_tenant(context), resource_type, id)),
        version_text(doc_version(old_p.store()[(effective_tenant(context), resource_type, id)].data)) != expected,
    ensures
        r matches Err(e) && e@ is PreconditionFailed,
        new_p.store() == old_p.store(),
{
}

/// A patch that names a version other than the stored one is refused
/// with a precondition failure and changes nothing.
pub proof fn law_stale_patch_refused(
    old_p: StandardResourceProvider,
    new_p: StandardResourceProvider,
    r: Result<VersionedResource, ProviderError>,
    context: RequestContext,
    resource_type: Seq<char>,
    id: Seq<char>,
    patch_request: Json,
    expected: Seq<char>,
)
    requires
        StandardResourceProvider::patch_outcome(old_p, new_p, r, context, resource_type, id, patch_request, Some(expected)),
        old_p.store().contains_key((effective_tenant(context), resource_type, id)),
        version_text(doc_version(old_p.store()[(effective_tenant(context), resource_type, id)].data)) != expected,
    ensures
        r matches Err(e) && e@ is PreconditionFailed,
        new_p.store() == old_p.store(),
{
}

/// After a successful update that changed the resource's version, an update
/// that names the version the resource had before is refused and changes
/// nothing.
pub proof fn law_update_makes_old_version_stale(
    p0: StandardResourceProvider,
    p1: StandardResourceProvider,
    r1: Result<VersionedResource, ProviderError>,
    p2: StandardResourceProvider,
    r2: Result<VersionedResource, ProviderError>,
    context: RequestContext,
    resource_type: Seq<char>,
    id: Seq<char>,
    data1: Json,
    expected1: Option<Seq<char>>,
    now1: Seq<char>,
    data2: Json,
    now2: Seq<char>,
)
    requires
        StandardResourceProvider::update_outcome(p0, p1, r1, context, resource_type, id, data1, expected1, now1),
        r1 is Ok,
        version_text(doc_version(p0.store()[(effective_tenant(context), resource_type, id)].data)) != r1->Ok_0@.version,
        StandardResourceProvider::update_outcome(
            p1,
            p2,
            r2,
            context,
            resource_type,
            id,
            data2,
            Some(version_text(doc_version(p0.store()[(effective_tenant(context), resource_type, id)].data))),
            now2,
        ),
    ensures
        r2 matches Err(e) && e@ is PreconditionFailed,
        p2.store() == p1.store(),
{
}

/// An update of a stored resource succeeds when the request may update,
/// the data is an object, the named version (if any) is the current one and
/// no other User of the tenant has its userName. The result keeps the id,
/// a later read gives it back, and the set of stored resources and every
/// listing stay as they were.
pub proof fn law_update_succeeds(
    old_p: StandardResourceProvider,
    new_p: StandardResourceProvider,
    r: Result<VersionedResource, ProviderError>,
    context: RequestContext,
    resource_type: Seq<char>,
    id: Seq<char>,
    data: Json,
    expected: Option<Seq<char>>,
    now: Seq<char>,
)
    requires
        StandardResourceProvider::update_outcome(old_p, new_p, r, context, resource_type, id, data, expected, now),
        context_permits(context, "update"@),
        data is Object,
        old_p.store().contains_key((effective_tenant(context), resource_type, id)),
        expected is None || expected == Some(
            version_text(doc_version(old_p.store()[(effective_tenant(context), resource_type, id)].data)),
        ),
        !(resource_type == "User"@ && data.set("id"@, Json::Str(id)).get_str("userName"@) is Some && username_taken(
            old_p.store(),
            effective_tenant(context),
            data.set("id"@, Json::Str(id)).get_str("userName"@)->0,
            Some(id),
        )),
    ensures
        r is Ok,
        r->Ok_0@.data.get_str("id"@) == Some(id),
        new_p.store().contains_key((effective_tenant(context), resource_type, id)),
        versioned_of(resource_type, new_p.store()[(effective_tenant(context), resource_type, id)]) == r->Ok_0@,
        new_p.store().dom() == old_p.store().dom(),
        forall|t: Seq<char>, rt: Seq<char>| #[trigger] new_p.ids(t, rt) == old_p.ids(t, rt),
{
    let key = (effective_tenant(context), resource_type, id);
    let d = data.set("id"@, Json::Str(id));
    lemma_get_set_same(data, "id"@, Json::Str(id));
    assert(old_p.update_check(context, resource_type, id, data, expected) is None);
    reveal_strlit("meta");
    reveal_strlit("id");
    assert("meta"@.len() == 4 && "id"@.len() == 2);
    match d.get("meta"@) {
        Some(Json::Object(f)) => {
            lemma_get_set_other(
                d,
                "meta"@,
                Json::Object(f).set("lastModified"@, Json::Str(now)).set("version"@, Json::Str(etag_text(doc_version(d)))),
                "id"@,
            );
        },
        _ => {},
    }
    assert(new_p.store().dom() =~= old_p.store().dom());
}

/// Versions follow content: two resources read with the same stored
/// document have the same version, whatever their keys.
pub proof fn law_equal_content_equal_version(
    p: StandardResourceProvider,
    g1: Result<Option<VersionedResource>, ProviderError>,
    g2: Result<Option<VersionedResource>, ProviderError>,
    context: RequestContext,
    resource_type: Seq<char>,
    id1: Seq<char>,
    id2: Seq<char>,
)
    requires
        p.get_outcome(g1, context, resource_type, id1),
        p.get_outcome(g2, context, resource_type, id2),
        g1 matches Ok(Some(v1)) && g2 matches Ok(Some(v2)) && v1@.data == v2@.data,
    ensures
        g1->Ok_0->Some_0@.version == g2->Ok_0->Some_0@.version,
{
}

/// The resources of a type in the request's tenant, in listing order.
pub open spec fn tenant_listing(p: StandardResourceProvider, context: RequestContext, resource_type: Seq<char>) -> Seq<
    VersionedModel,
> {
    listing(p.store(), p.ids(effective_tenant(context), resource_type), effective_tenant(context), resource_type)
}

/// A listing page holds at most `count` resources. Without a start index
/// it is the first `count` resources of the tenant's listing (all of them
/// when there are fewer, or when no count is given); with start index
/// `si >= 1` its `i`-th resource is the listing's resource at 1-based
/// position `si + i`, and it holds as many as the listing has from there,
/// up to `count`.
pub proof fn law_list_page(
    p: StandardResourceProvider,
    v: Seq<VersionedModel>,
    context: RequestContext,
    resource_type: Seq<char>,
    q: ListQuery,
)
    requires
        v == paginate(tenant_listing(p, context, resource_type), Some(q)),
    ensures
        q.count is Some ==> v.len() <= q.count->0,
        q.start_index is None && q.count is None ==> v == tenant_listing(p, context, resource_type),
        q.start_index is None && q.count is Some ==> v == tenant_listing(p, context, resource_type).take(
            if q.count->0 < tenant_listing(p, context, resource_type).len() {
                q.count->0 as int
            } else {
                tenant_listing(p, context, resource_type).len() as int
            },
        ),
        forall|i: int|
            q.start_index is Some && q.start_index->0 >= 1 && 0 <= i < v.len() ==> #[trigger] v[i] == tenant_listing(
                p,
                context,
                resource_type,
            )[q.start_index->0 - 1 + i],
        q.start_index is Some && q.start_index->0 >= 1 ==> v.len() == if q.start_index->0 - 1 >= tenant_listing(
            p,
            context,
            resource_type,
        ).len() {
            0
        } else if q.count is Some && q.count->0 < tenant_listing(p, context, resource_type).len() - (q.start_index->0 - 1) {
            q.count->0 as int
        } else {
            tenant_listing(p, context, resource_type).len() - (q.start_index->0 - 1)
        },
{
    let all = tenant_listing(p, context, resource_type);
    if q.start_index is None {
        match q.count {
            Some(c) => {
                if c >= all.len() {
                    assert(all.take(all.len() as int) =~= all);
                }
            },
            None => {},
        }
    }
}

/// Every resource found by attribute has that attribute equal to the
/// requested value, and every resource of the tenant's listing with that
/// value is found.
pub proof fn law_find_by_attribute(
    p: StandardResourceProvider,
    found: Seq<VersionedModel>,
    context: RequestContext,
    resource_type: Seq<char>,
    attribute: Seq<char>,
    value: Seq<char>,
)
    requires
        found == listing(
            p.store(),
            p.ids(effective_tenant(context), resource_type),
            effective_tenant(context),
            resource_type,
        ).filter(|m: VersionedModel| attribute_matches(m.data, attribute, value)),
    ensures
        forall|i: int| 0 <= i < found.len() ==> (#[trigger] found[i]).data.get_str(attribute) == Some(value),
        ({
            let all = listing(p.store(), p.ids(effective_tenant(context), resource_type), effective_tenant(context), resource_type);
            forall|i: int| 0 <= i < all.len() && (#[trigger] all[i]).data.get_str(attribute) == Some(value) ==> found.contains(all[i])
        }),
{
    let all = listing(p.store(), p.ids(effective_tenant(context), resource_type), effective_tenant(context), resource_type);
    let pred = |m: VersionedModel| attribute_matches(m.data, attribute, value);
    all.filter_lemma(pred);
    assert forall|i: int| 0 <= i < all.len() && (#[trigger] all[i]).data.get_str(attribute) == Some(value) implies found.contains(all[i]) by {
        assert(pred(all[i]));
    }
}

/// Creating a resource leaves every resource of other tenants as it was.
pub proof fn law_create_isolated(
    old_p: StandardResourceProvider,
    new_p: StandardResourceProvider,
    r: Result<VersionedResource, ProviderError>,
    context: RequestContext,
    resource_type: Seq<char>,
    data: Json,
    generated_id: Seq<char>,
    now: Seq<char>,
    k: KeyModel,
)
    requires
        StandardResourceProvider::create_outcome(old_p, new_p, r, context, resource_type, data, generated_id, now),
        k.0 != effective_tenant(context),
    ensures
        new_p.store().contains_key(k) == old_p.store().contains_key(k),
        old_p.store().contains_key(k) ==> new_p.store()[k] == old_p.store()[k],
{
}

/// Updating a resource leaves every resource of other tenants as it was.
pub proof fn law_update_isolated(
    old_p: StandardResourceProvider,
    new_p: StandardResourceProvider,
    r: Result<VersionedResource, ProviderError>,
    context: RequestContext,
    resource_type: Seq<char>,
    id: Seq<char>,
    data: Json,
    expected: Option<Seq<char>>,
    now: Seq<char>,
    k: KeyModel,
)
    requires
        StandardResourceProvider::update_outcome(old_p, new_p, r, context, resource_type, id, data, expected, now),
        k.0 != effective_tenant(context),
    ensures
        new_p.store().contains_key(k) == old_p.store().contains_key(k),
        old_p.store().contains_key(k) ==> new_p.store()[k] == old_p.store()[k],
{
}

/// Deleting a resource leaves every resource of other tenants as it was.
pub proof fn law_delete_isolated(
    old_p: StandardResourceProvider,
    new_p: StandardResourceProvider,
    r: Result<(), ProviderError>,
    context: RequestContext,
    resource_type: Seq<char>,
    id: Seq<char>,
    expected: Option<Seq<char>>,
    k: KeyModel,
)
    requires
        StandardResourceProvider::delete_outcome(old_p, new_p, r, context, resource_type, id, expected),
        k.0 != effective_tenant(context),
    ensures
        new_p.store().contains_key(k) == old_p.store().contains_key(k),
        old_p.store().contains_key(k) ==> new_p.store()[k] == old_p.store()[k],
{
}

/// Patching a resource leaves every resource of other tenants as it was.
pub proof fn law_patch_isolated(
    old_p: StandardResourceProvider,
    new_p: StandardResourceProvider,
    r: Result<VersionedResource, ProviderError>,
    context: RequestContext,
    resource_type: Seq<char>,
    id: Seq<char>,
    patch_request: Json,
    expected: Option<Seq<char>>,
    k: KeyModel,
)
    requires
        StandardResourceProvider::patch_outcome(old_p, new_p, r, context, resource_type, id, patch_request, expected),
        k.0 != effective_tenant(context),
    ensures
        new_p.store().contains_key(k) == old_p.store().contains_key(k),
        old_p.store().contains_key(k) ==> new_p.store()[k] == old_p.store()[k],
{
}

/// A refused operation changes nothing: a request whose tenant may not
/// create, update or delete leaves the storage as it was.
pub proof fn law_refused_writes_change_nothing(
    old_p: StandardResourceProvider,
    p1: StandardResourceProvider,
    r1: Result<VersionedResource, ProviderError>,
    p2: StandardResourceProvider,
    r2: Result<VersionedResource, ProviderError>,
    p3: StandardResourceProvider,
    r3: Result<(), ProviderError>,
    context: RequestContext,
    resource_type: Seq<char>,
    id: Seq<char>,
    data: Json,
    generated_id: Seq<char>,
    expected: Option<Seq<char>>,
    now: Seq<char>,
)
    requires
        StandardResourceProvider::create_outcome(old_p, p1, r1, context, resource_type, data, generated_id, now),
        StandardResourceProvider::update_outcome(old_p, p2, r2, context, resource_type, id, data, expected, now),
        StandardResourceProvider::delete_outcome(old_p, p3, r3, context, resource_type, id, expected),
    ensures
        !context_permits(context, "create"@) ==> (r1 matches Err(e) && e@ == refused_error(context, "create"@)) && p1.store() == old_p.store(),
        !context_permits(context, "update"@) ==> (r2 matches Err(e) && e@ == refused_error(context, "update"@)) && p2.store() == old_p.store(),
        !context_permits(context, "delete"@) ==> (r3 matches Err(e) && e@ == refused_error(context, "delete"@)) && p3.store() == old_p.store(),
{
}

} // verus!
