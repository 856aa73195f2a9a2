//! The operation handler: it dispatches structured requests to the resource
//! provider and the schema registry, and reports each outcome as a structured
//! response carrying version and ETag information.

use vstd::prelude::*;
use crate::ids::rfc3339_instant;
use crate::ids::is_uuid_v4_text;
use crate::collections::StrMap;
use crate::ids::new_uuid_string;
use crate::json::{Json, JsonValue, items_view, lemma_array_view};
use crate::operation_handler::errors::{
    ScimError,
    create_error_response,
    create_version_conflict_response,
    etag_of,
    holds_strings,
    is_conflict_response,
    is_error_response,
    weak_etag,
};
use crate::operation_handler::request::{OperationMetadata, ScimOperationRequest, ScimOperationResponse, ScimOperationType};
use crate::providers::error::{ErrorModel, ProviderError, RawVersion, VersionConflict, provider_error_text, standard_conflict_message};
use crate::providers::standard::{
    StandardResourceProvider,
    VersionedModel,
    VersionedResource,
    context_permits,
    effective_tenant,
    listing,
    refused_error,
    versioned_of,
};
use crate::resource::{RequestContext, copy_opt_string, opt_view, schemas_of, strings_view, tenant_of};
use crate::schema::{Schema, SchemaRegistry, group_schema_id, schema_json, user_schema_id};
use crate::text::{contains_seq, contains_str, copy_string, owned};

verus! {

/// Handles SCIM operations over a resource provider and a schema registry.
pub struct ScimOperationHandler {
    provider: StandardResourceProvider,
    registry: SchemaRegistry,
}

/// The text of an optional version.
pub open spec fn raw_view(v: Option<RawVersion>) -> Option<Seq<char>> {
    match v {
        Some(x) => Some(x@),
        None => None,
    }
}

/// Whether `a` holds exactly a version and its ETag.
pub open spec fn version_info(a: StrMap<JsonValue>, version: Seq<char>) -> bool {
    holds_strings(a, seq!["version"@, "etag"@], seq![version, weak_etag(version)])
}

/// Whether metadata carries the request's identifier and tenant.
pub open spec fn in_context(m: OperationMetadata, context: RequestContext) -> bool {
    &&& m.request_id@ == context.request_id@
    &&& opt_view(m.tenant_id) == tenant_of(context.tenant_context)
}

/// Whether `r` reports a single resource with its version.
pub open spec fn resource_response(
    r: ScimOperationResponse,
    vr: VersionedModel,
    resource_id: Option<Seq<char>>,
    context: RequestContext,
) -> bool {
    &&& r.success
    &&& r.data matches Some(d) && d@ == vr.data
    &&& r.error is None
    &&& r.error_code is None
    &&& opt_view(r.metadata.resource_type) == Some(vr.resource_type)
    &&& opt_view(r.metadata.resource_id) == resource_id
    &&& r.metadata.resource_count == Some(1usize)
    &&& r.metadata.total_results is None
    &&& in_context(r.metadata, context)
    &&& r.metadata.schemas matches Some(s) && strings_view(s@) == schemas_of(vr.resource_type, vr.data)
    &&& version_info(r.metadata.additional, vr.version)
}

/// Whether `r` reports the deletion of a resource.
pub open spec fn deleted_response(r: ScimOperationResponse, resource_type: Seq<char>, id: Seq<char>, context: RequestContext) -> bool {
    &&& r.success
    &&& r.data is None
    &&& r.error is None
    &&& r.error_code is None
    &&& opt_view(r.metadata.resource_type) == Some(resource_type)
    &&& opt_view(r.metadata.resource_id) == Some(id)
    &&& r.metadata.resource_count is None
    &&& r.metadata.total_results is None
    &&& in_context(r.metadata, context)
    &&& r.metadata.schemas is None
    &&& r.metadata.additional@ == Map::<Seq<char>, JsonValue>::empty()
}

/// The documents of a sequence of versioned resources.
pub open spec fn documents(items: Seq<VersionedModel>) -> Seq<Json> {
    Seq::new(items.len(), |i: int| items[i].data)
}

/// Whether `r` reports a list of resources.
pub open spec fn list_response(r: ScimOperationResponse, items: Seq<VersionedModel>, resource_type: Seq<char>, context: RequestContext) -> bool {
    &&& r.success
    &&& r.data matches Some(d) && d@ == Json::Array(documents(items))
    &&& r.error is None
    &&& r.error_code is None
    &&& opt_view(r.metadata.resource_type) == Some(resource_type)
    &&& r.metadata.resource_id is None
    &&& r.metadata.resource_count matches Some(n) && n == items.len()
    &&& r.metadata.total_results matches Some(n) && n == items.len()
    &&& in_context(r.metadata, context)
    &&& r.metadata.schemas is None
    &&& r.metadata.additional@ == Map::<Seq<char>, JsonValue>::empty()
}

/// Whether `r` is the error for a malformed request with the given message.
pub open spec fn invalid(r: Result<ScimOperationResponse, ScimError>, message: Seq<char>) -> bool {
    r matches Err(ScimError::InvalidRequest { message: m }) && m@ == message
}

/// Whether `r` is the error reporting a provider failure.
pub open spec fn provider_failure(r: Result<ScimOperationResponse, ScimError>, e: ErrorModel) -> bool {
    r matches Err(ScimError::Provider(x)) && x@ == e
}

/// Whether `r` is the error for a missing resource.
pub open spec fn not_found(r: Result<ScimOperationResponse, ScimError>, resource_type: Seq<char>, id: Seq<char>) -> bool {
    r matches Err(ScimError::ResourceNotFound { resource_type: t, id: i }) && t@ == resource_type && i@ == id
}

/// Whether `r` is the error carrying a provider's message.
pub open spec fn described_failure(r: Result<ScimOperationResponse, ScimError>, text: Seq<char>) -> bool {
    r matches Err(ScimError::ProviderError(m)) && m@ == text
}

/// Whether `r` reports a version conflict whose versions are not known.
pub open spec fn unknown_conflict(
    r: Result<ScimOperationResponse, ScimError>,
    context: RequestContext,
    resource_type: Seq<char>,
    id: Seq<char>,
) -> bool {
    r matches Ok(resp) && is_conflict_response(
        resp,
        "unknown"@,
        "unknown"@,
        standard_conflict_message("unknown"@, "unknown"@),
        context.request_id@,
        Some(resource_type),
        Some(id),
    )
}

/// How a failed conditional update is reported, judged by the provider's message.
pub open spec fn update_failure_reported(
    e: ErrorModel,
    resource_type: Seq<char>,
    id: Seq<char>,
    context: RequestContext,
    r: Result<ScimOperationResponse, ScimError>,
) -> bool {
    let text = provider_error_text(e);
    if contains_seq(text, "Version conflict"@) {
        if contains_seq(text, "Version conflict: "@) {
            unknown_conflict(r, context, resource_type, id)
        } else {
            described_failure(r, text)
        }
    } else if contains_seq(text, "Precondition failed"@) {
        unknown_conflict(r, context, resource_type, id)
    } else if contains_seq(text, "not found"@) {
        not_found(r, resource_type, id)
    } else {
        described_failure(r, text)
    }
}

/// How a failed conditional delete is reported, judged by the provider's message.
pub open spec fn delete_failure_reported(
    e: ErrorModel,
    resource_type: Seq<char>,
    id: Seq<char>,
    context: RequestContext,
    r: Result<ScimOperationResponse, ScimError>,
) -> bool {
    let text = provider_error_text(e);
    if contains_seq(text, "Version conflict"@) || contains_seq(text, "Precondition failed"@) {
        unknown_conflict(r, context, resource_type, id)
    } else if contains_seq(text, "not found"@) {
        not_found(r, resource_type, id)
    } else {
        described_failure(r, text)
    }
}

/// The resources of a type in the request's tenant, in listing order.
pub open spec fn tenant_listing(p: StandardResourceProvider, context: RequestContext, resource_type: Seq<char>) -> Seq<VersionedModel> {
    listing(p.store(), p.ids(effective_tenant(context), resource_type), effective_tenant(context), resource_type)
}

/// Whether a resource's document holds `value` under `attribute`.
pub open spec fn has_value(attribute: Seq<char>, value: Json) -> spec_fn(VersionedModel) -> bool {
    |m: VersionedModel| m.data.get(attribute) == Some(value)
}

/// The JSON forms of a sequence of schemas.
pub open spec fn schema_jsons(s: Seq<Schema>) -> Seq<Json> {
    Seq::new(s.len(), |i: int| schema_json(s[i]))
}

/// The outcome of a create request.
pub open spec fn create_handled(
    old_p: StandardResourceProvider,
    new_p: StandardResourceProvider,
    request: ScimOperationRequest,
    context: RequestContext,
    r: Result<ScimOperationResponse, ScimError>,
) -> bool {
    match request.data {
        None => invalid(r, "Missing data for create operation"@) && new_p == old_p,
        Some(data) => exists|pr: Result<VersionedResource, ProviderError>, generated_id: Seq<char>, now: Seq<char>|
            is_uuid_v4_text(generated_id) && rfc3339_instant(now) is Some && #[trigger] StandardResourceProvider::create_outcome(
                old_p,
                new_p,
                pr,
                context,
                request.resource_type@,
                data@,
                generated_id,
                now,
            ) && match pr {
                Ok(vr) => r matches Ok(resp) && resource_response(resp, vr@, vr@.data.get_str("id"@), context),
                Err(e) => provider_failure(r, e@),
            },
    }
}

/// The outcome of a get request.
pub open spec fn get_handled(
    p: StandardResourceProvider,
    request: ScimOperationRequest,
    context: RequestContext,
    r: Result<ScimOperationResponse, ScimError>,
) -> bool {
    match request.resource_id {
        None => invalid(r, "Missing resource_id for get operation"@),
        Some(id) => {
            let key = (effective_tenant(context), request.resource_type@, id@);
            if !context_permits(context, "read"@) {
                provider_failure(r, refused_error(context, "read"@))
            } else if p.store().contains_key(key) {
                r matches Ok(resp) && resource_response(
                    resp,
                    versioned_of(request.resource_type@, p.store()[key]),
                    Some(id@),
                    context,
                )
            } else {
                not_found(r, request.resource_type@, id@)
            }
        },
    }
}

/// The outcome of an update request.
pub open spec fn update_handled(
    old_p: StandardResourceProvider,
    new_p: StandardResourceProvider,
    request: ScimOperationRequest,
    context: RequestContext,
    r: Result<ScimOperationResponse, ScimError>,
) -> bool {
    match request.resource_id {
        None => invalid(r, "Missing resource_id for update operation"@) && new_p == old_p,
        Some(id) => match request.data {
            None => invalid(r, "Missing data for update operation"@) && new_p == old_p,
            Some(data) => exists|pr: Result<VersionedResource, ProviderError>, now: Seq<char>|
                rfc3339_instant(now) is Some && #[trigger] StandardResourceProvider::update_outcome(
                    old_p,
                    new_p,
                    pr,
                    context,
                    request.resource_type@,
                    id@,
                    data@,
                    raw_view(request.expected_version),
                    now,
                ) && match pr {
                    Ok(vr) => r matches Ok(resp) && resource_response(resp, vr@, Some(id@), context),
                    Err(e) => if request.expected_version is Some {
                        update_failure_reported(e@, request.resource_type@, id@, context, r)
                    } else {
                        provider_failure(r, e@)
                    },
                },
        },
    }
}

/// The outcome of a delete request.
pub open spec fn delete_handled(
    old_p: StandardResourceProvider,
    new_p: StandardResourceProvider,
    request: ScimOperationRequest,
    context: RequestContext,
    r: Result<ScimOperationResponse, ScimError>,
) -> bool {
    match request.resource_id {
        None => invalid(r, "Missing resource_id for delete operation"@) && new_p == old_p,
        Some(id) => exists|pr: Result<(), ProviderError>|
            #[trigger] StandardResourceProvider::delete_outcome(
                old_p,
                new_p,
                pr,
                context,
                request.resource_type@,
                id@,
                raw_view(request.expected_version),
            ) && match pr {
                Ok(_) => r matches Ok(resp) && deleted_response(resp, request.resource_type@, id@, context),
                Err(e) => if request.expected_version is Some {
                    delete_failure_reported(e@, request.resource_type@, id@, context, r)
                } else {
                    provider_failure(r, e@)
                },
            },
    }
}

/// The outcome of a patch request.
pub open spec fn patch_handled(
    old_p: StandardResourceProvider,
    new_p: StandardResourceProvider,
    request: ScimOperationRequest,
    context: RequestContext,
    r: Result<ScimOperationResponse, ScimError>,
) -> bool {
    match request.resource_id {
        None => invalid(r, "Missing resource_id for patch operation"@) && new_p == old_p,
        Some(id) => match request.data {
            None => invalid(r, "Missing data for patch operation"@) && new_p == old_p,
            Some(data) => exists|pr: Result<VersionedResource, ProviderError>|
                #[trigger] StandardResourceProvider::patch_outcome(
                    old_p,
                    new_p,
                    pr,
                    context,
                    request.resource_type@,
                    id@,
                    data@,
                    None,
                ) && match pr {
                    Ok(vr) => r matches Ok(resp) && resource_response(resp, vr@, Some(id@), context),
                    Err(e) => provider_failure(r, e@),
                },
        },
    }
}

/// The outcome of a list request.
pub open spec fn list_handled(
    p: StandardResourceProvider,
    request: ScimOperationRequest,
    context: RequestContext,
    r: Result<ScimOperationResponse, ScimError>,
) -> bool {
    if !context_permits(context, "list"@) {
        provider_failure(r, refused_error(context, "list"@))
    } else {
        r matches Ok(resp) && list_response(
            resp,
            tenant_listing(p, context, request.resource_type@),
            request.resource_type@,
            context,
        )
    }
}

/// The outcome of a search request.
pub open spec fn search_handled(
    p: StandardResourceProvider,
    request: ScimOperationRequest,
    context: RequestContext,
    r: Result<ScimOperationResponse, ScimError>,
) -> bool {
    match request.query {
        None => invalid(r, "Missing query parameters for search operation"@),
        Some(q) => match q.search_attribute {
            None => invalid(r, "Missing search_attribute for search operation"@),
            Some(attribute) => match q.search_value {
                None => invalid(r, "Missing search_value for search operation"@),
                Some(value) => if !context_permits(context, "list"@) {
                    provider_failure(r, refused_error(context, "list"@))
                } else {
                    r matches Ok(resp) && list_response(
                        resp,
                        tenant_listing(p, context, request.resource_type@).filter(has_value(attribute@, value@)),
                        request.resource_type@,
                        context,
                    )
                },
            },
        },
    }
}

/// The outcome of a request for every schema.
pub open spec fn schemas_handled(schemas: Seq<Schema>, context: RequestContext, r: Result<ScimOperationResponse, ScimError>) -> bool {
    r matches Ok(resp) && {
        &&& resp.success
        &&& resp.data matches Some(d) && d@ == Json::Object(Seq::empty()).set(
            "schemas"@,
            Json::Array(schema_jsons(schemas)),
        )
        &&& resp.error is None
        &&& resp.error_code is None
        &&& opt_view(resp.metadata.resource_type) == Some("Schema"@)
        &&& resp.metadata.resource_id is None
        &&& resp.metadata.resource_count matches Some(n) && n == schemas.len()
        &&& resp.metadata.total_results matches Some(n) && n == schemas.len()
        &&& in_context(resp.metadata, context)
        &&& resp.metadata.schemas is None
        &&& resp.metadata.additional@ == Map::<Seq<char>, JsonValue>::empty()
    }
}

/// The outcome of a request for one schema.
pub open spec fn schema_handled(
    schemas: Seq<Schema>,
    request: ScimOperationRequest,
    context: RequestContext,
    r: Result<ScimOperationResponse, ScimError>,
) -> bool {
    match request.resource_id {
        None => invalid(r, "Missing schema_id for get schema operation"@),
        Some(id) => if exists|i: int| 0 <= i < schemas.len() && (#[trigger] schemas[i]).id@ == id@ {
            r matches Ok(resp) && {
                &&& resp.success
                &&& exists|i: int|
                    0 <= i < schemas.len() && (#[trigger] schemas[i]).id@ == id@ && (forall|j: int|
                        0 <= j < i ==> (#[trigger] schemas[j]).id@ != id@) && (resp.data matches Some(d) && d@
                        == schema_json(schemas[i]))
                &&& resp.error is None
                &&& resp.error_code is None
                &&& opt_view(resp.metadata.resource_type) == Some("Schema"@)
                &&& opt_view(resp.metadata.resource_id) == Some(id@)
                &&& resp.metadata.resource_count == Some(1usize)
                &&& resp.metadata.total_results is None
                &&& in_context(resp.metadata, context)
                &&& resp.metadata.schemas is None
                &&& resp.metadata.additional@ == Map::<Seq<char>, JsonValue>::empty()
            }
        } else {
            r matches Err(ScimError::SchemaNotFound { schema_id }) && schema_id@ == id@
        },
    }
}

/// The outcome of an existence check.
pub open spec fn exists_handled(
    p: StandardResourceProvider,
    request: ScimOperationRequest,
    context: RequestContext,
    r: Result<ScimOperationResponse, ScimError>,
) -> bool {
    match request.resource_id {
        None => invalid(r, "Missing resource_id for exists operation"@),
        Some(id) => {
            let present = p.store().contains_key((effective_tenant(context), request.resource_type@, id@));
            r matches Ok(resp) && {
                &&& resp.success
                &&& resp.data matches Some(d) && d@ == Json::Bool(present)
                &&& resp.error is None
                &&& resp.error_code is None
                &&& opt_view(resp.metadata.resource_type) == Some(request.resource_type@)
                &&& opt_view(resp.metadata.resource_id) == Some(id@)
                &&& resp.metadata.resource_count is None
                &&& resp.metadata.total_results is None
                &&& in_context(resp.metadata, context)
                &&& resp.metadata.schemas is None
                &&& resp.metadata.additional@.dom() == set!["exists"@]
                &&& resp.metadata.additional@["exists"@]@ == Json::Bool(present)
            }
        },
    }
}

/// The outcome of a request, by its operation.
pub open spec fn handled(
    old_p: StandardResourceProvider,
    new_p: StandardResourceProvider,
    schemas: Seq<Schema>,
    request: ScimOperationRequest,
    context: RequestContext,
    r: Result<ScimOperationResponse, ScimError>,
) -> bool {
    match request.operation {
        ScimOperationType::Create => create_handled(old_p, new_p, request, context, r),
        ScimOperationType::Update => update_handled(old_p, new_p, request, context, r),
        ScimOperationType::Delete => delete_handled(old_p, new_p, request, context, r),
        ScimOperationType::Get => get_handled(old_p, request, context, r) && new_p == old_p,
        ScimOperationType::List => list_handled(old_p, request, context, r) && new_p == old_p,
        ScimOperationType::Search => search_handled(old_p, request, context, r) && new_p == old_p,
        ScimOperationType::GetSchemas => schemas_handled(schemas, context, r) && new_p == old_p,
        ScimOperationType::GetSchema => schema_handled(schemas, request, context, r) && new_p == old_p,
        ScimOperationType::Exists => exists_handled(old_p, request, context, r) && new_p == old_p,
    }
}

/// Whether `context` is the one built for `request`: its tenant, and its
/// identifier or a generated one.
pub open spec fn context_for(context: RequestContext, request: ScimOperationRequest) -> bool {
    &&& context.tenant_context == request.tenant_context
    &&& match request.request_id {
        Some(x) => context.request_id@ == x@,
        None => is_uuid_v4_text(context.request_id@),
    }
    &&& context.user_context is None
    &&& context.metadata@ == Map::<Seq<char>, String>::empty()
}

impl ScimOperationHandler {
    /// The provider the handler works on.
    pub closed spec fn state(&self) -> StandardResourceProvider {
        self.provider
    }

    /// The schemas the handler serves.
    pub closed spec fn schema_list(&self) -> Seq<Schema> {
        self.registry.schema_seq()
    }

    /// A handler over `provider`, serving the core User and Group schemas.
    pub fn new(provider: StandardResourceProvider) -> (r: ScimOperationHandler)
        ensures
            r.state() == provider,
            r.schema_list().len() == 2,
            r.schema_list()[0].id@ == user_schema_id(),
            r.schema_list()[1].id@ == group_schema_id(),
    {
        let registry = match SchemaRegistry::new() {
            Ok(reg) => reg,
            Err(_) => SchemaRegistry::with_schemas(Vec::new()),
        };
        ScimOperationHandler { provider, registry }
    }

    /// A handler over `provider`, serving the schemas of `registry`.
    pub fn with_registry(provider: StandardResourceProvider, registry: SchemaRegistry) -> (r: ScimOperationHandler)
        ensures
            r.state() == provider,
            r.schema_list() == registry.schema_seq(),
    {
        ScimOperationHandler { provider, registry }
    }

    /// The provider the handler works on.
    pub fn provider(&self) -> (r: &StandardResourceProvider)
        ensures
            *r == self.state(),
    {
        &self.provider
    }

    /// The registry of the schemas the handler serves.
    pub fn registry(&self) -> (r: &SchemaRegistry)
        ensures
            r.schema_seq() == self.schema_list(),
    {
        &self.registry
    }

    /// The context of a request: the request's tenant, if any, and
    /// `request_id` as its identifier.
    pub fn create_request_context(&self, request: &ScimOperationRequest, request_id: &str) -> (r: RequestContext)
        ensures
            r.tenant_context == request.tenant_context,
            r.request_id@ == request_id@,
            r.user_context is None,
            r.metadata@ == Map::<Seq<char>, String>::empty(),
    {
        match &request.tenant_context {
            Some(t) => RequestContext::with_tenant(owned(request_id), t.copy()),
            None => RequestContext::with_id(owned(request_id)),
        }
    }

    /// Handles a request: builds its context (generating a request
    /// identifier when the request has none), performs the operation, and
    /// reports a failure as an error response.
    pub fn handle_operation(&mut self, request: ScimOperationRequest) -> (r: ScimOperationResponse)
        ensures
            final(self).schema_list() == old(self).schema_list(),
            exists|context: RequestContext, result: Result<ScimOperationResponse, ScimError>|
                context_for(context, request) && #[trigger] handled(
                    old(self).state(),
                    final(self).state(),
                    old(self).schema_list(),
                    request,
                    context,
                    result,
                ) && match result {
                    Ok(resp) => r == resp,
                    Err(e) => is_error_response(r, e, context.request_id@),
                },
    {
        let request_id = match &request.request_id {
            Some(x) => copy_string(x),
            None => new_uuid_string(),
        };
        let context = self.create_request_context(&request, request_id.as_str());
        let ghost req = request;
        let result = match request.operation {
            ScimOperationType::Create => handle_create(self, request, &context),
            ScimOperationType::Get => handle_get(&*self, request, &context),
            ScimOperationType::Update => handle_update(self, request, &context),
            ScimOperationType::Delete => handle_delete(self, request, &context),
            ScimOperationType::List => handle_list(&*self, request, &context),
            ScimOperationType::Search => handle_search(&*self, request, &context),
            ScimOperationType::GetSchemas => handle_get_schemas(&*self, request, &context),
            ScimOperationType::GetSchema => handle_get_schema(&*self, request, &context),
            ScimOperationType::Exists => handle_exists(&*self, request, &context),
        };
        assert(context_for(context, req));
        assert(handled(old(self).state(), self.state(), old(self).schema_list(), req, context, result));
        match result {
            Ok(resp) => resp,
            Err(e) => create_error_response(e, request_id),
        }
    }
}

/// Metadata of a response.
fn metadata(
    resource_type: Option<String>,
    resource_id: Option<String>,
    resource_count: Option<usize>,
    total_results: Option<usize>,
    context: &RequestContext,
    schemas: Option<Vec<String>>,
    additional: StrMap<JsonValue>,
) -> (m: OperationMetadata)
    ensures
        m.resource_type == resource_type,
        m.resource_id == resource_id,
        m.resource_count == resource_count,
        m.total_results == total_results,
        in_context(m, *context),
        m.schemas == schemas,
        m.additional == additional,
{
    OperationMetadata {
        resource_type,
        resource_id,
        resource_count,
        total_results,
        request_id: copy_string(&context.request_id),
        tenant_id: copy_opt_string(context.tenant_id()),
        schemas,
        additional,
    }
}

/// The version and ETag members of a response.
fn version_members(version: &RawVersion) -> (a: StrMap<JsonValue>)
    ensures
        version_info(a, version@),
{
    let mut a: StrMap<JsonValue> = StrMap::new();
    let v0 = JsonValue::text(version.as_str());
    let v1 = JsonValue::Str(etag_of(version.as_str()));
    let ghost g0 = v0;
    let ghost g1 = v1;
    a.insert(owned("version"), v0);
    a.insert(owned("etag"), v1);
    proof {
        reveal_strlit("version");
        reveal_strlit("etag");
        assert("version"@.len() == 7 && "etag"@.len() == 4);
        let keys = seq!["version"@, "etag"@];
        let values = seq![version@, weak_etag(version@)];
        assert(a@.dom() =~= keys.to_set()) by {
            assert(keys[0] == "version"@);
            assert(keys[1] == "etag"@);
        }
        assert forall|i: int| 0 <= i < keys.len() implies #[trigger] a@[keys[i]]@ == Json::Str(values[i]) by {
            if i == 0 {
                assert(a@[keys[0]] == g0);
            } else {
                assert(a@[keys[1]] == g1);
            }
        }
    }
    a
}

/// The response reporting a single resource with its version.
fn resource_success(vr: VersionedResource, resource_id: Option<String>, context: &RequestContext) -> (r: ScimOperationResponse)
    ensures
        resource_response(r, vr@, opt_view(resource_id), *context),
{
    let additional = version_members(&vr.version);
    let schemas = vr.resource.get_schemas();
    let resource_type = copy_string(&vr.resource.resource_type);
    ScimOperationResponse {
        success: true,
        data: Some(vr.resource.data),
        error: None,
        error_code: None,
        metadata: metadata(Some(resource_type), resource_id, Some(1), None, context, Some(schemas), additional),
    }
}

/// The response reporting a conflict whose versions are not known.
fn unknown_conflict_response(context: &RequestContext, resource_type: String, id: String) -> (r: Result<ScimOperationResponse, ScimError>)
    ensures
        unknown_conflict(r, *context, resource_type@, id@),
{
    let conflict = VersionConflict::standard_message(RawVersion::from_hash("unknown"), RawVersion::from_hash("unknown"));
    Ok(create_version_conflict_response(conflict, copy_string(&context.request_id), Some(resource_type), Some(id)))
}

/// Reports a failed conditional update, judged by the provider's message.
fn report_update_failure(e: ProviderError, resource_type: String, id: String, context: &RequestContext) -> (r: Result<ScimOperationResponse, ScimError>)
    ensures
        update_failure_reported(e@, resource_type@, id@, *context, r),
{
    let text = e.message();
    if contains_str(text.as_str(), "Version conflict") {
        if contains_str(text.as_str(), "Version conflict: ") {
            unknown_conflict_response(context, resource_type, id)
        } else {
            Err(ScimError::ProviderError(text))
        }
    } else if contains_str(text.as_str(), "Precondition failed") {
        unknown_conflict_response(context, resource_type, id)
    } else if contains_str(text.as_str(), "not found") {
        Err(ScimError::ResourceNotFound { resource_type, id })
    } else {
        Err(ScimError::ProviderError(text))
    }
}

/// Reports a failed conditional delete, judged by the provider's message.
fn report_delete_failure(e: ProviderError, resource_type: String, id: String, context: &RequestContext) -> (r: Result<ScimOperationResponse, ScimError>)
    ensures
        delete_failure_reported(e@, resource_type@, id@, *context, r),
{
    let text = e.message();
    if contains_str(text.as_str(), "Version conflict") || contains_str(text.as_str(), "Precondition failed") {
        unknown_conflict_response(context, resource_type, id)
    } else if contains_str(text.as_str(), "not found") {
        Err(ScimError::ResourceNotFound { resource_type, id })
    } else {
        Err(ScimError::ProviderError(text))
    }
}

/// Handles a create request.
pub fn handle_create(
    handler: &mut ScimOperationHandler,
    request: ScimOperationRequest,
    context: &RequestContext,
) -> (r: Result<ScimOperationResponse, ScimError>)
    ensures
        final(handler).schema_list() == old(handler).schema_list(),
        create_handled(old(handler).state(), final(handler).state(), request, *context, r),
{
    let ghost req = request;
    let data = match request.data {
        Some(d) => d,
        None => {
            return Err(ScimError::invalid_request("Missing data for create operation"));
        },
    };
    let ghost data_view = data@;
    let pr = handler.provider.create_resource(request.resource_type.as_str(), data, context);
    let ghost (gid, now) = choose|gid: Seq<char>, now: Seq<char>|
        is_uuid_v4_text(gid) && StandardResourceProvider::create_outcome(
            old(handler).provider,
            handler.provider,
            pr,
            *context,
            req.resource_type@,
            data_view,
            gid,
            now,
        );
    let ghost gpr = pr;
    let r = match pr {
        Ok(vr) => {
            let id = copy_opt_string(vr.resource.get_id());
            Ok(resource_success(vr, id, context))
        },
        Err(e) => Err(ScimError::Provider(e)),
    };
    assert(StandardResourceProvider::create_outcome(
        old(handler).state(),
        handler.state(),
        gpr,
        *context,
        req.resource_type@,
        data_view,
        gid,
        now,
    ));
    r
}

/// Handles a get request.
pub fn handle_get(
    handler: &ScimOperationHandler,
    request: ScimOperationRequest,
    context: &RequestContext,
) -> (r: Result<ScimOperationResponse, ScimError>)
    ensures
        get_handled(handler.state(), request, *context, r),
{
    let id = match request.resource_id {
        Some(id) => id,
        None => {
            return Err(ScimError::invalid_request("Missing resource_id for get operation"));
        },
    };
    match handler.provider.get_resource(request.resource_type.as_str(), id.as_str(), context) {
        Ok(Some(vr)) => Ok(resource_success(vr, Some(id), context)),
        Ok(None) => Err(ScimError::ResourceNotFound { resource_type: request.resource_type, id }),
        Err(e) => Err(ScimError::Provider(e)),
    }
}

/// Handles an update request; with an expected version the update is
/// conditional, and a refusal is reported by the provider's message.
pub fn handle_update(
    handler: &mut ScimOperationHandler,
    request: ScimOperationRequest,
    context: &RequestContext,
) -> (r: Result<ScimOperationResponse, ScimError>)
    ensures
        final(handler).schema_list() == old(handler).schema_list(),
        update_handled(old(handler).state(), final(handler).state(), request, *context, r),
{
    let ghost req = request;
    let id = match request.resource_id {
        Some(id) => id,
        None => {
            return Err(ScimError::invalid_request("Missing resource_id for update operation"));
        },
    };
    let data = match request.data {
        Some(d) => d,
        None => {
            return Err(ScimError::invalid_request("Missing data for update operation"));
        },
    };
    let ghost data_view = data@;
    let conditional = request.expected_version.is_some();
    let pr = handler.provider.update_resource(
        request.resource_type.as_str(),
        id.as_str(),
        data,
        request.expected_version.as_ref(),
        context,
    );
    let ghost now = choose|now: Seq<char>|
        #[trigger] StandardResourceProvider::update_outcome(
            old(handler).provider,
            handler.provider,
            pr,
            *context,
            req.resource_type@,
            id@,
            data_view,
            raw_view(req.expected_version),
            now,
        );
    let ghost gpr = pr;
    let r = match pr {
        Ok(vr) => Ok(resource_success(vr, Some(id), context)),
        Err(e) => if conditional {
            report_update_failure(e, request.resource_type, id, context)
        } else {
            Err(ScimError::Provider(e))
        },
    };
    assert(StandardResourceProvider::update_outcome(
        old(handler).state(),
        handler.state(),
        gpr,
        *context,
        req.resource_type@,
        id@,
        data_view,
        raw_view(req.expected_version),
        now,
    ));
    r
}

/// Handles a delete request; with an expected version the delete is
/// conditional, and a refusal is reported by the provider's message.
pub fn handle_delete(
    handler: &mut ScimOperationHandler,
    request: ScimOperationRequest,
    context: &RequestContext,
) -> (r: Result<ScimOperationResponse, ScimError>)
    ensures
        final(handler).schema_list() == old(handler).schema_list(),
        delete_handled(old(handler).state(), final(handler).state(), request, *context, r),
{
    let ghost req = request;
    let id = match request.resource_id {
        Some(id) => id,
        None => {
            return Err(ScimError::invalid_request("Missing resource_id for delete operation"));
        },
    };
    let conditional = request.expected_version.is_some();
    let pr = handler.provider.delete_resource(
        request.resource_type.as_str(),
        id.as_str(),
        request.expected_version.as_ref(),
        context,
    );
    let ghost gpr = pr;
    let r = match pr {
        Ok(()) => {
            let rt = request.resource_type;
            Ok(
                ScimOperationResponse {
                    success: true,
                    data: None,
                    error: None,
                    error_code: None,
                    metadata: metadata(Some(rt), Some(id), None, None, context, None, StrMap::new()),
                },
            )
        },
        Err(e) => if conditional {
            report_delete_failure(e, request.resource_type, id, context)
        } else {
            Err(ScimError::Provider(e))
        },
    };
    assert(StandardResourceProvider::delete_outcome(
        old(handler).state(),
        handler.state(),
        gpr,
        *context,
        req.resource_type@,
        id@,
        raw_view(req.expected_version),
    ));
    r
}

/// Handles a patch request.
pub fn handle_patch(
    handler: &mut ScimOperationHandler,
    request: ScimOperationRequest,
    context: &RequestContext,
) -> (r: Result<ScimOperationResponse, ScimError>)
    ensures
        final(handler).schema_list() == old(handler).schema_list(),
        patch_handled(old(handler).state(), final(handler).state(), request, *context, r),
{
    let ghost req = request;
    let id = match request.resource_id {
        Some(id) => id,
        None => {
            return Err(ScimError::invalid_request("Missing resource_id for patch operation"));
        },
    };
    let data = match request.data {
        Some(d) => d,
        None => {
            return Err(ScimError::invalid_request("Missing data for patch operation"));
        },
    };
    let pr = handler.provider.patch_resource(request.resource_type.as_str(), id.as_str(), &data, None, context);
    let ghost gpr = pr;
    let r = match pr {
        Ok(vr) => Ok(resource_success(vr, Some(id), context)),
        Err(e) => Err(ScimError::Provider(e)),
    };
    assert(StandardResourceProvider::patch_outcome(
        old(handler).state(),
        handler.state(),
        gpr,
        *context,
        req.resource_type@,
        id@,
        data@,
        None,
    ));
    r
}

/// The response reporting a list of resources.
fn list_success(items: &Vec<VersionedResource>, resource_type: String, context: &RequestContext) -> (r: ScimOperationResponse)
    ensures
        list_response(r, Seq::new(items@.len(), |i: int| items@[i]@), resource_type@, *context),
{
    let ghost models = Seq::new(items@.len(), |i: int| items@[i]@);
    let n = items.len();
    let mut docs: Vec<JsonValue> = Vec::new();
    let mut k: usize = 0;
    while k < n
        invariant
            n == items@.len(),
            models == Seq::new(items@.len(), |i: int| items@[i]@),
            k <= n,
            docs@.len() == k,
            forall|j: int| 0 <= j < k ==> (#[trigger] docs@[j])@ == models[j].data,
        decreases n - k,
    {
        docs.push(items[k].resource.data.deep_clone());
        k = k + 1;
    }
    proof {
        lemma_array_view(docs);
        assert(items_view(docs@) =~= documents(models));
    }
    ScimOperationResponse {
        success: true,
        data: Some(JsonValue::Array(docs)),
        error: None,
        error_code: None,
        metadata: metadata(Some(resource_type), None, Some(n), Some(n), context, None, StrMap::new()),
    }
}

/// Handles a list request: every resource of the type in the request's tenant.
pub fn handle_list(
    handler: &ScimOperationHandler,
    request: ScimOperationRequest,
    context: &RequestContext,
) -> (r: Result<ScimOperationResponse, ScimError>)
    ensures
        list_handled(handler.state(), request, *context, r),
{
    match handler.provider.list_resources(request.resource_type.as_str(), None, context) {
        Ok(items) => Ok(list_success(&items, request.resource_type, context)),
        Err(e) => Err(ScimError::Provider(e)),
    }
}

/// The resources among `items` whose document holds `value` under `attribute`.
fn select_matching(items: Vec<VersionedResource>, attribute: &str, value: &JsonValue) -> (r: Vec<VersionedResource>)
    ensures
        Seq::new(r@.len(), |i: int| r@[i]@) == Seq::new(items@.len(), |i: int| items@[i]@).filter(
            has_value(attribute@, value@),
        ),
{
    let ghost all = Seq::new(items@.len(), |i: int| items@[i]@);
    let ghost pred = has_value(attribute@, value@);
    let mut out: Vec<VersionedResource> = Vec::new();
    let mut rest = items;
    let ghost n: int = all.len() as int;
    assert(all.take(0).filter(pred) =~= Seq::<VersionedModel>::empty());
    while rest.len() > 0
        invariant
            n == all.len(),
            pred == has_value(attribute@, value@),
            rest@.len() <= n,
            forall|j: int| 0 <= j < rest@.len() ==> (#[trigger] rest@[j])@ == all[n - rest@.len() + j],
            Seq::new(out@.len(), |k: int| out@[k]@) == all.take(n - rest@.len()).filter(pred),
        decreases rest@.len(),
    {
        let ghost i = n - rest@.len();
        let ghost before = Seq::new(out@.len(), |k: int| out@[k]@);
        let vr = rest.remove(0);
        assert(vr@ == all[i]);
        assert(all.take(i + 1) =~= all.take(i).push(all[i]));
        proof {
            all.take(i).lemma_filter_push(all[i], pred);
        }
        let keep = match vr.resource.data.get(attribute) {
            Some(v) => v.equals(value),
            None => false,
        };
        if keep {
            out.push(vr);
            assert(Seq::new(out@.len(), |k: int| out@[k]@) =~= before.push(all[i]));
        } else {
            assert(Seq::new(out@.len(), |k: int| out@[k]@) =~= before);
        }
    }
    assert(all.take(n) =~= all);
    out
}

/// Handles a search request: the resources of the type in the request's
/// tenant whose document holds the query's value under its attribute.
pub fn handle_search(
    handler: &ScimOperationHandler,
    request: ScimOperationRequest,
    context: &RequestContext,
) -> (r: Result<ScimOperationResponse, ScimError>)
    ensures
        search_handled(handler.state(), request, *context, r),
{
    let query = match request.query {
        Some(q) => q,
        None => {
            return Err(ScimError::invalid_request("Missing query parameters for search operation"));
        },
    };
    let attribute = match query.search_attribute {
        Some(a) => a,
        None => {
            return Err(ScimError::invalid_request("Missing search_attribute for search operation"));
        },
    };
    let value = match query.search_value {
        Some(v) => v,
        None => {
            return Err(ScimError::invalid_request("Missing search_value for search operation"));
        },
    };
    match handler.provider.list_resources(request.resource_type.as_str(), None, context) {
        Ok(items) => {
            let selected = select_matching(items, attribute.as_str(), &value);
            Ok(list_success(&selected, request.resource_type, context))
        },
        Err(e) => Err(ScimError::Provider(e)),
    }
}

/// Handles a request for every schema.
pub fn handle_get_schemas(
    handler: &ScimOperationHandler,
    request: ScimOperationRequest,
    context: &RequestContext,
) -> (r: Result<ScimOperationResponse, ScimError>)
    ensures
        schemas_handled(handler.schema_list(), *context, r),
{
    let schemas = handler.registry.get_schemas();
    let n = schemas.len();
    let mut out: Vec<JsonValue> = Vec::new();
    let mut i: usize = 0;
    while i < n
        invariant
            n == schemas@.len(),
            i <= n,
            out@.len() == i,
            forall|j: int| 0 <= j < i ==> (#[trigger] out@[j])@ == schema_json(schemas@[j]),
        decreases n - i,
    {
        out.push(schemas[i].to_json());
        i = i + 1;
    }
    proof {
        lemma_array_view(out);
        assert(items_view(out@) =~= schema_jsons(handler.schema_list()));
    }
    let data = JsonValue::object().with("schemas", JsonValue::Array(out));
    Ok(
        ScimOperationResponse {
            success: true,
            data: Some(data),
            error: None,
            error_code: None,
            metadata: metadata(Some(owned("Schema")), None, Some(n), Some(n), context, None, StrMap::new()),
        },
    )
}

/// Handles a request for the schema whose id is the request's resource id.
pub fn handle_get_schema(
    handler: &ScimOperationHandler,
    request: ScimOperationRequest,
    context: &RequestContext,
) -> (r: Result<ScimOperationResponse, ScimError>)
    ensures
        schema_handled(handler.schema_list(), request, *context, r),
{
    let schema_id = match request.resource_id {
        Some(id) => id,
        None => {
            return Err(ScimError::invalid_request("Missing schema_id for get schema operation"));
        },
    };
    match handler.registry.get_schema(schema_id.as_str()) {
        Some(schema) => {
            let data = schema.to_json();
            Ok(
                ScimOperationResponse {
                    success: true,
                    data: Some(data),
                    error: None,
                    error_code: None,
                    metadata: metadata(Some(owned("Schema")), Some(schema_id), Some(1), None, context, None, StrMap::new()),
                },
            )
        },
        None => Err(ScimError::SchemaNotFound { schema_id }),
    }
}

/// Handles an existence check.
pub fn handle_exists(
    handler: &ScimOperationHandler,
    request: ScimOperationRequest,
    context: &RequestContext,
) -> (r: Result<ScimOperationResponse, ScimError>)
    ensures
        exists_handled(handler.state(), request, *context, r),
{
    let id = match request.resource_id {
        Some(id) => id,
        None => {
            return Err(ScimError::invalid_request("Missing resource_id for exists operation"));
        },
    };
    let present = match handler.provider.resource_exists(request.resource_type.as_str(), id.as_str(), context) {
        Ok(b) => b,
        Err(e) => {
            return Err(ScimError::ProviderError(e.message()));
        },
    };
    let mut additional: StrMap<JsonValue> = StrMap::new();
    additional.insert(owned("exists"), JsonValue::Bool(present));
    proof {
        assert(additional@.dom() =~= set!["exists"@]);
    }
    Ok(
        ScimOperationResponse {
            success: true,
            data: Some(JsonValue::Bool(present)),
            error: None,
            error_code: None,
            metadata: metadata(Some(request.resource_type), Some(id), None, None, context, None, additional),
        },
    )
}

} // verus!
