//! Errors of operation handling and the responses that report them.

use vstd::prelude::*;
use crate::collections::StrMap;
use crate::json::{Json, JsonValue};
use crate::operation_handler::request::{OperationMetadata, ScimOperationResponse};
use crate::providers::error::{ProviderError, VersionConflict, provider_error_text};
use crate::resource::opt_view;
use crate::text::{concat, owned};

verus! {

/// Errors raised while handling an operation.
#[derive(Debug)]
pub enum ScimError {
    /// The request data failed validation.
    Validation(String),
    /// The requested resource does not exist.
    ResourceNotFound { resource_type: String, id: String },
    /// The requested schema does not exist.
    SchemaNotFound { schema_id: String },
    /// The resource type is not served.
    UnsupportedResourceType(String),
    /// The operation is not supported for the resource type.
    UnsupportedOperation { resource_type: String, operation: String },
    /// The request is malformed.
    InvalidRequest { message: String },
    /// The resource provider failed.
    Provider(ProviderError),
    /// An internal failure.
    Internal { message: String },
    /// The resource provider failed, described by its message.
    ProviderError(String),
}

/// The message that reports an error.
pub open spec fn scim_error_message(e: ScimError) -> Seq<char> {
    match e {
        ScimError::Validation(m) => "Validation error: "@ + m@,
        ScimError::ResourceNotFound { resource_type, id } => "Resource not found: "@ + resource_type@ + " with ID "@
            + id@,
        ScimError::SchemaNotFound { schema_id } => "Schema not found: "@ + schema_id@,
        ScimError::UnsupportedResourceType(t) => "Unsupported resource type: "@ + t@,
        ScimError::UnsupportedOperation { resource_type, operation } => "Unsupported operation "@ + operation@
            + " for resource type "@ + resource_type@,
        ScimError::InvalidRequest { message } => "Invalid request: "@ + message@,
        ScimError::Provider(p) => "Provider error: "@ + provider_error_text(p@),
        ScimError::Internal { message } => "Internal error: "@ + message@,
        ScimError::ProviderError(m) => "Provider error: "@ + m@,
    }
}

/// The code that reports an error.
pub open spec fn scim_error_code(e: ScimError) -> Seq<char> {
    match e {
        ScimError::Validation(_) => "VALIDATION_ERROR"@,
        ScimError::ResourceNotFound { .. } => "RESOURCE_NOT_FOUND"@,
        ScimError::SchemaNotFound { .. } => "SCHEMA_NOT_FOUND"@,
        ScimError::UnsupportedResourceType(_) => "UNSUPPORTED_RESOURCE_TYPE"@,
        ScimError::UnsupportedOperation { .. } => "UNSUPPORTED_OPERATION"@,
        ScimError::InvalidRequest { .. } => "INVALID_REQUEST"@,
        ScimError::Provider(_) => "PROVIDER_ERROR"@,
        ScimError::Internal { .. } => "INTERNAL_ERROR"@,
        ScimError::ProviderError(_) => "UNKNOWN_ERROR"@,
    }
}

/// The weak ETag of a version.
pub open spec fn weak_etag(version: Seq<char>) -> Seq<char> {
    "W/\""@ + version + "\""@
}

/// Whether metadata names only the request, with nothing else set.
pub open spec fn bare_metadata(m: OperationMetadata, request_id: Seq<char>) -> bool {
    &&& m.resource_type is None
    &&& m.resource_id is None
    &&& m.resource_count is None
    &&& m.total_results is None
    &&& m.request_id@ == request_id
    &&& m.tenant_id is None
    &&& m.schemas is None
    &&& m.additional@ == Map::<Seq<char>, JsonValue>::empty()
}

/// Whether `r` is the response that reports `error` for the request `request_id`.
pub open spec fn is_error_response(r: ScimOperationResponse, error: ScimError, request_id: Seq<char>) -> bool {
    &&& !r.success
    &&& r.data is None
    &&& opt_view(r.error) == Some(scim_error_message(error))
    &&& opt_view(r.error_code) == Some(scim_error_code(error))
    &&& bare_metadata(r.metadata, request_id)
}

/// Whether `additional` holds exactly the given string members.
pub open spec fn holds_strings(additional: StrMap<JsonValue>, keys: Seq<Seq<char>>, values: Seq<Seq<char>>) -> bool {
    &&& keys.len() == values.len()
    &&& additional@.dom() == keys.to_set()
    &&& forall|i: int| 0 <= i < keys.len() ==> #[trigger] additional@[keys[i]]@ == Json::Str(values[i])
}

/// Whether `r` is the response that reports a version conflict.
pub open spec fn is_conflict_response(
    r: ScimOperationResponse,
    expected: Seq<char>,
    current: Seq<char>,
    message: Seq<char>,
    request_id: Seq<char>,
    resource_type: Option<Seq<char>>,
    resource_id: Option<Seq<char>>,
) -> bool {
    &&& !r.success
    &&& r.data is None
    &&& opt_view(r.error) == Some(message)
    &&& opt_view(r.error_code) == Some("version_mismatch"@)
    &&& opt_view(r.metadata.resource_type) == resource_type
    &&& opt_view(r.metadata.resource_id) == resource_id
    &&& r.metadata.resource_count is None
    &&& r.metadata.total_results is None
    &&& r.metadata.request_id@ == request_id
    &&& r.metadata.tenant_id is None
    &&& r.metadata.schemas is None
    &&& holds_strings(
        r.metadata.additional,
        seq!["expected_version"@, "current_version"@, "expected_etag"@, "current_etag"@],
        seq![expected, current, weak_etag(expected), weak_etag(current)],
    )
}

impl ScimError {
    /// An invalid-request error with the given message.
    pub fn invalid_request(message: &str) -> (r: ScimError)
        ensures
            r matches ScimError::InvalidRequest { message: m } && m@ == message@,
    {
        ScimError::InvalidRequest { message: owned(message) }
    }

    /// The message that reports this error.
    pub fn message(&self) -> (r: String)
        ensures
            r@ == scim_error_message(*self),
    {
        match self {
            ScimError::Validation(m) => concat("Validation error: ", m.as_str()),
            ScimError::ResourceNotFound { resource_type, id } => {
                let a = concat("Resource not found: ", resource_type.as_str());
                let b = concat(a.as_str(), " with ID ");
                concat(b.as_str(), id.as_str())
            },
            ScimError::SchemaNotFound { schema_id } => concat("Schema not found: ", schema_id.as_str()),
            ScimError::UnsupportedResourceType(t) => concat("Unsupported resource type: ", t.as_str()),
            ScimError::UnsupportedOperation { resource_type, operation } => {
                let a = concat("Unsupported operation ", operation.as_str());
                let b = concat(a.as_str(), " for resource type ");
                concat(b.as_str(), resource_type.as_str())
            },
            ScimError::InvalidRequest { message } => concat("Invalid request: ", message.as_str()),
            ScimError::Provider(p) => concat("Provider error: ", p.message().as_str()),
            ScimError::Internal { message } => concat("Internal error: ", message.as_str()),
            ScimError::ProviderError(m) => concat("Provider error: ", m.as_str()),
        }
    }

    /// The code that reports this error.
    pub fn code(&self) -> (r: String)
        ensures
            r@ == scim_error_code(*self),
    {
        let c = match self {
            ScimError::Validation(_) => "VALIDATION_ERROR",
            ScimError::ResourceNotFound { .. } => "RESOURCE_NOT_FOUND",
            ScimError::SchemaNotFound { .. } => "SCHEMA_NOT_FOUND",
            ScimError::UnsupportedResourceType(_) => "UNSUPPORTED_RESOURCE_TYPE",
            ScimError::UnsupportedOperation { .. } => "UNSUPPORTED_OPERATION",
            ScimError::InvalidRequest { .. } => "INVALID_REQUEST",
            ScimError::Provider(_) => "PROVIDER_ERROR",
            ScimError::Internal { .. } => "INTERNAL_ERROR",
            ScimError::ProviderError(_) => "UNKNOWN_ERROR",
        };
        owned(c)
    }
}

/// Metadata naming only the request.
pub fn bare(request_id: String) -> (m: OperationMetadata)
    ensures
        bare_metadata(m, request_id@),
        m.request_id == request_id,
{
    OperationMetadata {
        resource_type: None,
        resource_id: None,
        resource_count: None,
        total_results: None,
        request_id,
        tenant_id: None,
        schemas: None,
        additional: StrMap::new(),
    }
}

/// The response that reports `error` for the request `request_id`.
pub fn create_error_response(error: ScimError, request_id: String) -> (r: ScimOperationResponse)
    ensures
        is_error_response(r, error, request_id@),
{
    let message = error.message();
    let code = error.code();
    ScimOperationResponse {
        success: false,
        data: None,
        error: Some(message),
        error_code: Some(code),
        metadata: bare(request_id),
    }
}

/// The weak ETag of a version.
pub fn etag_of(version: &str) -> (r: String)
    ensures
        r@ == weak_etag(version@),
{
    let a = concat("W/\"", version);
    concat(a.as_str(), "\"")
}

/// The response that reports a version conflict on a resource.
pub fn create_version_conflict_response(
    conflict: VersionConflict,
    request_id: String,
    resource_type: Option<String>,
    resource_id: Option<String>,
) -> (r: ScimOperationResponse)
    ensures
        is_conflict_response(
            r,
            conflict.expected@,
            conflict.current@,
            conflict.message@,
            request_id@,
            opt_view(resource_type),
            opt_view(resource_id),
        ),
{
    let mut additional: StrMap<JsonValue> = StrMap::new();
    let v0 = JsonValue::text(conflict.expected.as_str());
    let v1 = JsonValue::text(conflict.current.as_str());
    let v2 = JsonValue::Str(etag_of(conflict.expected.as_str()));
    let v3 = JsonValue::Str(etag_of(conflict.current.as_str()));
    let ghost g0 = v0;
    let ghost g1 = v1;
    let ghost g2 = v2;
    let ghost g3 = v3;
    additional.insert(owned("expected_version"), v0);
    additional.insert(owned("current_version"), v1);
    additional.insert(owned("expected_etag"), v2);
    additional.insert(owned("current_etag"), v3);
    proof {
        reveal_strlit("expected_version");
        reveal_strlit("current_version");
        reveal_strlit("expected_etag");
        reveal_strlit("current_etag");
        let keys = seq!["expected_version"@, "current_version"@, "expected_etag"@, "current_etag"@];
        assert("expected_version"@.len() == 16 && "current_version"@.len() == 15);
        assert("expected_etag"@.len() == 13 && "current_etag"@.len() == 12);
        let values = seq![
            conflict.expected@,
            conflict.current@,
            weak_etag(conflict.expected@),
            weak_etag(conflict.current@),
        ];
        assert(additional@.dom() =~= keys.to_set()) by {
            assert(keys[0] == "expected_version"@);
            assert(keys[1] == "current_version"@);
            assert(keys[2] == "expected_etag"@);
            assert(keys[3] == "current_etag"@);
        }
        assert forall|i: int| 0 <= i < keys.len() implies #[trigger] additional@[keys[i]]@ == Json::Str(values[i]) by {
            if i == 0 {
                assert(additional@[keys[0]] == g0);
            } else if i == 1 {
                assert(additional@[keys[1]] == g1);
            } else if i == 2 {
                assert(additional@[keys[2]] == g2);
            } else {
                assert(additional@[keys[3]] == g3);
            }
        }
    }
    ScimOperationResponse {
        success: false,
        data: None,
        error: Some(conflict.message),
        error_code: Some(owned("version_mismatch")),
        metadata: OperationMetadata {
            resource_type,
            resource_id,
            resource_count: None,
            total_results: None,
            request_id,
            tenant_id: None,
            schemas: None,
            additional,
        },
    }
}

} // verus!
