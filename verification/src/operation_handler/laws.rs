//! What the operation handler promises across requests: a resource read
//! after it was created is the resource and version the create reported,
//! a write that names an outdated version is answered with a version
//! conflict and changes nothing, and a resource read after it was deleted
//! is reported missing.

use vstd::prelude::*;
use crate::ids::is_uuid_v4_text;
use crate::json::{Json, JsonValue, lemma_get_set_other};
use crate::operation_handler::errors::{ScimError, weak_etag};
use crate::operation_handler::handler::{
    create_handled,
    delete_failure_reported,
    delete_handled,
    get_handled,
    not_found,
    resource_response,
    update_failure_reported,
    update_handled,
    unknown_conflict,
    version_info,
};
use crate::operation_handler::request::{ScimOperationRequest, ScimOperationResponse};
use crate::providers::error::{ProviderError, provider_error_text};
use crate::providers::standard::{
    StandardResourceProvider,
    VersionedResource,
    context_permits,
    created_doc,
    creation_meta,
    doc_version,
    effective_tenant,
    mismatch_error,
    version_text,
    with_generated_id,
};
use crate::resource::{RequestContext, opt_view};
use crate::text::{contains_seq, occurs_at};

verus! {

/// A text contains its own prefix.
proof fn lemma_contains_prefix(a: Seq<char>, b: Seq<char>)
    ensures
        contains_seq(a + b, a),
{
    assert((a + b).subrange(0, a.len() as int) =~= a);
    assert(occurs_at(a + b, a, 0));
}

/// The version and ETag members reported for a version.
proof fn lemma_version_members(a: crate::collections::StrMap<JsonValue>, v: Seq<char>)
    requires
        version_info(a, v),
    ensures
        a@.contains_key("version"@) && a@["version"@]@ == Json::Str(v),
        a@.contains_key("etag"@) && a@["etag"@]@ == Json::Str(weak_etag(v)),
{
    let keys = seq!["version"@, "etag"@];
    let values = seq![v, weak_etag(v)];
    assert(keys[0] == "version"@);
    assert(keys[1] == "etag"@);
    assert(a@[keys[0]]@ == Json::Str(values[0]));
    assert(a@[keys[1]]@ == Json::Str(values[1]));
    assert(keys.to_set().contains(keys[0]));
    assert(keys.to_set().contains(keys[1]));
}

/// The message of a version mismatch mentions a failed precondition.
proof fn lemma_precondition_text(expected: Seq<char>, current: Seq<char>)
    ensures
        contains_seq(provider_error_text(mismatch_error(expected, current)), "Precondition failed"@),
{
    reveal_strlit("Precondition failed: ");
    reveal_strlit("Precondition failed");
    let rest = ": "@ + "Version mismatch: expected "@ + expected + ", got "@ + current;
    reveal_strlit(": ");
    assert("Precondition failed: "@ =~= "Precondition failed"@ + ": "@);
    assert(provider_error_text(mismatch_error(expected, current)) =~= "Precondition failed"@ + rest);
    lemma_contains_prefix("Precondition failed"@, rest);
}

/// A resource read right after it was created, by its reported id, in the
/// same tenant and with permission to read, is reported with the document,
/// version and ETag that the create reported.
pub proof fn law_handler_get_after_create(
    p0: StandardResourceProvider,
    p1: StandardResourceProvider,
    create: ScimOperationRequest,
    c1: RequestContext,
    r1: Result<ScimOperationResponse, ScimError>,
    get: ScimOperationRequest,
    c2: RequestContext,
    r2: Result<ScimOperationResponse, ScimError>,
)
    requires
        create_handled(p0, p1, create, c1, r1),
        r1 is Ok,
        get_handled(p1, get, c2, r2),
        get.resource_type@ == create.resource_type@,
        get.resource_id matches Some(id) && opt_view(r1->Ok_0.metadata.resource_id) == Some(id@),
        effective_tenant(c2) == effective_tenant(c1),
        context_permits(c2, "read"@),
    ensures
        r2 matches Ok(resp) && {
            &&& resp.success
            &&& resp.data matches Some(d) && (r1->Ok_0.data matches Some(d1) && d@ == d1@)
            &&& resp.metadata.additional@["version"@]@ == r1->Ok_0.metadata.additional@["version"@]@
            &&& resp.metadata.additional@["etag"@]@ == r1->Ok_0.metadata.additional@["etag"@]@
        },
{
    let data = create.data->Some_0;
    let (pr, gid, now) = choose|pr: Result<VersionedResource, ProviderError>, gid: Seq<char>, now: Seq<char>|
        is_uuid_v4_text(gid) && #[trigger] StandardResourceProvider::create_outcome(
            p0,
            p1,
            pr,
            c1,
            create.resource_type@,
            data@,
            gid,
            now,
        ) && match pr {
            Ok(vr) => r1 matches Ok(resp) && resource_response(resp, vr@, vr@.data.get_str("id"@), c1),
            Err(e) => r1 matches Err(ScimError::Provider(x)) && x@ == e@,
        };
    let vr = pr->Ok_0;
    let resp1 = r1->Ok_0;
    let d = with_generated_id(data@, gid);
    let rt = create.resource_type@;
    let id = get.resource_id->Some_0@;
    reveal_strlit("meta");
    reveal_strlit("id");
    assert("meta"@.len() == 4 && "id"@.len() == 2);
    lemma_get_set_other(d, "meta"@, creation_meta(rt, crate::providers::standard::doc_id(d), now, doc_version(d)), "id"@);
    assert(crate::providers::standard::doc_id(d) == id);
    let key = (effective_tenant(c1), rt, id);
    assert(p1.store().contains_key(key));
    let resp2 = r2->Ok_0;
    let stored = created_doc(d, rt, now, doc_version(d));
    lemma_version_members(resp1.metadata.additional, version_text(doc_version(stored)));
    lemma_version_members(resp2.metadata.additional, version_text(doc_version(stored)));
}

/// A conditional update that names a version other than the stored one,
/// by a request that may update, is answered with a version conflict and
/// changes nothing. (The answer is judged by the refusal's message, so a
/// named version whose text brings "Version conflict" into that message
/// without ": " after it is left out.)
pub proof fn law_handler_stale_update_refused(
    p0: StandardResourceProvider,
    p1: StandardResourceProvider,
    request: ScimOperationRequest,
    context: RequestContext,
    r: Result<ScimOperationResponse, ScimError>,
)
    requires
        update_handled(p0, p1, request, context, r),
        request.resource_id is Some,
        request.data is Some,
        request.expected_version is Some,
        context_permits(context, "update"@),
        p0.store().contains_key((effective_tenant(context), request.resource_type@, request.resource_id->Some_0@)),
        ({
            let stored = p0.store()[(effective_tenant(context), request.resource_type@, request.resource_id->Some_0@)];
            let text = provider_error_text(mismatch_error(request.expected_version->Some_0@, version_text(doc_version(stored.data))));
            &&& version_text(doc_version(stored.data)) != request.expected_version->Some_0@
            &&& !(contains_seq(text, "Version conflict"@) && !contains_seq(text, "Version conflict: "@))
        }),
    ensures
        p1.store() == p0.store(),
        r matches Ok(resp) && !resp.success && opt_view(resp.error_code) == Some("version_mismatch"@),
{
    let id = request.resource_id->Some_0;
    let data = request.data->Some_0;
    let expected = request.expected_version->Some_0@;
    let (pr, now) = choose|pr: Result<VersionedResource, ProviderError>, now: Seq<char>|
        #[trigger] StandardResourceProvider::update_outcome(
            p0,
            p1,
            pr,
            context,
            request.resource_type@,
            id@,
            data@,
            crate::operation_handler::handler::raw_view(request.expected_version),
            now,
        ) && match pr {
            Ok(vr) => r matches Ok(resp) && resource_response(resp, vr@, Some(id@), context),
            Err(e) => if request.expected_version is Some {
                update_failure_reported(e@, request.resource_type@, id@, context, r)
            } else {
                r matches Err(ScimError::Provider(x)) && x@ == e@
            },
        };
    let key = (effective_tenant(context), request.resource_type@, id@);
    let current = version_text(doc_version(p0.store()[key].data));
    assert(p0.update_check(context, request.resource_type@, id@, data@, Some(expected)) == Some(
        mismatch_error(expected, current),
    ));
    let text = provider_error_text(mismatch_error(expected, current));
    lemma_precondition_text(expected, current);
    assert(pr is Err && pr->Err_0@ == mismatch_error(expected, current));
    assert(unknown_conflict(r, context, request.resource_type@, id@));
}

/// A conditional delete that names a version other than the stored one, by
/// a request that may delete, is answered with a version conflict and
/// changes nothing.
pub proof fn law_handler_stale_delete_refused(
    p0: StandardResourceProvider,
    p1: StandardResourceProvider,
    request: ScimOperationRequest,
    context: RequestContext,
    r: Result<ScimOperationResponse, ScimError>,
)
    requires
        delete_handled(p0, p1, request, context, r),
        request.resource_id is Some,
        request.expected_version is Some,
        context_permits(context, "delete"@),
        p0.store().contains_key((effective_tenant(context), request.resource_type@, request.resource_id->Some_0@)),
        version_text(
            doc_version(p0.store()[(effective_tenant(context), request.resource_type@, request.resource_id->Some_0@)].data),
        ) != request.expected_version->Some_0@,
    ensures
        p1.store() == p0.store(),
        r matches Ok(resp) && !resp.success && opt_view(resp.error_code) == Some("version_mismatch"@),
{
    let id = request.resource_id->Some_0;
    let expected = request.expected_version->Some_0@;
    let pr = choose|pr: Result<(), ProviderError>|
        #[trigger] StandardResourceProvider::delete_outcome(
            p0,
            p1,
            pr,
            context,
            request.resource_type@,
            id@,
            crate::operation_handler::handler::raw_view(request.expected_version),
        ) && match pr {
            Ok(_) => r matches Ok(resp) && crate::operation_handler::handler::deleted_response(
                resp,
                request.resource_type@,
                id@,
                context,
            ),
            Err(e) => if request.expected_version is Some {
                delete_failure_reported(e@, request.resource_type@, id@, context, r)
            } else {
                r matches Err(ScimError::Provider(x)) && x@ == e@
            },
        };
    let key = (effective_tenant(context), request.resource_type@, id@);
    let current = version_text(doc_version(p0.store()[key].data));
    let text = provider_error_text(mismatch_error(expected, current));
    lemma_precondition_text(expected, current);
    assert(pr is Err && pr->Err_0@ == mismatch_error(expected, current));
    assert(unknown_conflict(r, context, request.resource_type@, id@));
}

/// A resource read after a successful delete of it, in the same tenant and
/// with permission to read, is reported missing.
pub proof fn law_handler_get_after_delete(
    p0: StandardResourceProvider,
    p1: StandardResourceProvider,
    delete: ScimOperationRequest,
    c1: RequestContext,
    r1: Result<ScimOperationResponse, ScimError>,
    get: ScimOperationRequest,
    c2: RequestContext,
    r2: Result<ScimOperationResponse, ScimError>,
)
    requires
        delete_handled(p0, p1, delete, c1, r1),
        r1 matches Ok(resp) && resp.success,
        get_handled(p1, get, c2, r2),
        get.resource_type@ == delete.resource_type@,
        delete.resource_id matches Some(d) && (get.resource_id matches Some(g) && g@ == d@),
        effective_tenant(c2) == effective_tenant(c1),
        context_permits(c2, "read"@),
    ensures
        not_found(r2, get.resource_type@, get.resource_id->Some_0@),
{
    let id = delete.resource_id->Some_0;
    let pr = choose|pr: Result<(), ProviderError>|
        #[trigger] StandardResourceProvider::delete_outcome(
            p0,
            p1,
            pr,
            c1,
            delete.resource_type@,
            id@,
            crate::operation_handler::handler::raw_view(delete.expected_version),
        ) && match pr {
            Ok(_) => r1 matches Ok(resp) && crate::operation_handler::handler::deleted_response(
                resp,
                delete.resource_type@,
                id@,
                c1,
            ),
            Err(e) => if delete.expected_version is Some {
                delete_failure_reported(e@, delete.resource_type@, id@, c1, r1)
            } else {
                r1 matches Err(ScimError::Provider(x)) && x@ == e@
            },
        };
    assert(pr is Ok);
}

} // verus!
