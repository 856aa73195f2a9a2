//! Requests to and responses from the operation handler, with their builders.

use vstd::prelude::*;
use crate::collections::StrMap;
use crate::json::JsonValue;
use crate::providers::error::RawVersion;
use crate::resource::TenantContext;
use crate::text::owned;

verus! {

/// The kinds of SCIM operation the handler performs.
#[derive(Debug, Clone, Copy, PartialEq, Eq, Structural, Hash)]
pub enum ScimOperationType {
    /// Create a new resource.
    Create,
    /// Get a resource by id.
    Get,
    /// Replace an existing resource.
    Update,
    /// Delete a resource.
    Delete,
    /// List the resources of a type.
    List,
    /// Search the resources of a type by an attribute value.
    Search,
    /// Get every registered schema.
    GetSchemas,
    /// Get one schema by id.
    GetSchema,
    /// Check whether a resource exists.
    Exists,
}

/// Query parameters of list and search operations.
#[derive(Debug)]
pub struct ScimQuery {
    /// Maximum number of results.
    pub count: Option<usize>,
    /// 1-based index of the first result.
    pub start_index: Option<usize>,
    /// Filter expression.
    pub filter: Option<String>,
    /// Attributes to include in results.
    pub attributes: Option<Vec<String>>,
    /// Attributes to leave out of results.
    pub excluded_attributes: Option<Vec<String>>,
    /// The attribute a search compares.
    pub search_attribute: Option<String>,
    /// The value a search looks for.
    pub search_value: Option<JsonValue>,
}

/// A SCIM operation request, independent of any transport.
#[derive(Debug)]
pub struct ScimOperationRequest {
    /// The operation to perform.
    pub operation: ScimOperationType,
    /// The resource type, such as `User` or `Group`.
    pub resource_type: String,
    /// The id of the targeted resource (or schema).
    pub resource_id: Option<String>,
    /// The payload of create and update operations.
    pub data: Option<JsonValue>,
    /// Query parameters of list and search operations.
    pub query: Option<ScimQuery>,
    /// The tenant of a multi-tenant request.
    pub tenant_context: Option<TenantContext>,
    /// Identifier for tracing; one is generated when absent.
    pub request_id: Option<String>,
    /// The version a conditional update or delete expects.
    pub expected_version: Option<RawVersion>,
}

/// Metadata of an operation's response.
#[derive(Debug)]
pub struct OperationMetadata {
    /// The resource type involved.
    pub resource_type: Option<String>,
    /// The resource id involved.
    pub resource_id: Option<String>,
    /// The number of resources returned.
    pub resource_count: Option<usize>,
    /// The number of resources available.
    pub total_results: Option<usize>,
    /// The request identifier.
    pub request_id: String,
    /// The tenant of the request.
    pub tenant_id: Option<String>,
    /// The schemas of the returned resource.
    pub schemas: Option<Vec<String>>,
    /// Further information, such as version and ETag.
    pub additional: StrMap<JsonValue>,
}

/// The response to an operation request.
#[derive(Debug)]
pub struct ScimOperationResponse {
    /// Whether the operation succeeded.
    pub success: bool,
    /// The data returned.
    pub data: Option<JsonValue>,
    /// The error message of a failed operation.
    pub error: Option<String>,
    /// The error code of a failed operation.
    pub error_code: Option<String>,
    /// Metadata about the operation.
    pub metadata: OperationMetadata,
}

/// Whether a query has no parameter set.
pub open spec fn empty_query(q: ScimQuery) -> bool {
    &&& q.count is None
    &&& q.start_index is None
    &&& q.filter is None
    &&& q.attributes is None
    &&& q.excluded_attributes is None
    &&& q.search_attribute is None
    &&& q.search_value is None
}

impl ScimQuery {
    /// A query with no parameter set.
    pub fn new() -> (r: ScimQuery)
        ensures
            empty_query(r),
    {
        ScimQuery {
            count: None,
            start_index: None,
            filter: None,
            attributes: None,
            excluded_attributes: None,
            search_attribute: None,
            search_value: None,
        }
    }

    /// This query with a start index and a count.
    pub fn with_pagination(self, start_index: usize, count: usize) -> (r: ScimQuery)
        ensures
            r == (ScimQuery { start_index: Some(start_index), count: Some(count), ..self }),
    {
        ScimQuery { start_index: Some(start_index), count: Some(count), ..self }
    }

    /// This query with a filter expression.
    pub fn with_filter(self, filter: &str) -> (r: ScimQuery)
        ensures
            r.filter matches Some(f) && f@ == filter@,
            r == (ScimQuery { filter: r.filter, ..self }),
    {
        ScimQuery { filter: Some(owned(filter)), ..self }
    }

    /// This query searching `attribute` for `value`.
    pub fn with_search(self, attribute: &str, value: JsonValue) -> (r: ScimQuery)
        ensures
            r.search_attribute matches Some(a) && a@ == attribute@,
            r.search_value == Some(value),
            r == (ScimQuery { search_attribute: r.search_attribute, search_value: r.search_value, ..self }),
    {
        ScimQuery { search_attribute: Some(owned(attribute)), search_value: Some(value), ..self }
    }

    /// This query restricted to the given attributes.
    pub fn with_attributes(self, attributes: Vec<String>) -> (r: ScimQuery)
        ensures
            r == (ScimQuery { attributes: Some(attributes), ..self }),
    {
        ScimQuery { attributes: Some(attributes), ..self }
    }

    /// This query leaving out the given attributes.
    pub fn with_excluded_attributes(self, excluded_attributes: Vec<String>) -> (r: ScimQuery)
        ensures
            r == (ScimQuery { excluded_attributes: Some(excluded_attributes), ..self }),
    {
        ScimQuery { excluded_attributes: Some(excluded_attributes), ..self }
    }
}

impl Default for ScimQuery {
    fn default() -> (r: ScimQuery)
        ensures
            empty_query(r),
    {
        ScimQuery::new()
    }
}

/// Whether a request has the given operation, type, id and data, and nothing else set.
pub open spec fn plain_request(
    r: ScimOperationRequest,
    operation: ScimOperationType,
    resource_type: Seq<char>,
    resource_id: Option<Seq<char>>,
    data: Option<JsonValue>,
) -> bool {
    &&& r.operation == operation
    &&& r.resource_type@ == resource_type
    &&& match resource_id {
        Some(id) => r.resource_id matches Some(x) && x@ == id,
        None => r.resource_id is None,
    }
    &&& r.data == data
    &&& r.query is None
    &&& r.tenant_context is None
    &&& r.request_id is None
    &&& r.expected_version is None
}

impl ScimOperationRequest {
    fn plain(
        operation: ScimOperationType,
        resource_type: &str,
        resource_id: Option<&str>,
        data: Option<JsonValue>,
    ) -> (r: ScimOperationRequest)
        ensures
            plain_request(
                r,
                operation,
                resource_type@,
                match resource_id {
                    Some(x) => Some(x@),
                    None => None,
                },
                data,
            ),
    {
        ScimOperationRequest {
            operation,
            resource_type: owned(resource_type),
            resource_id: match resource_id {
                Some(x) => Some(owned(x)),
                None => None,
            },
            data,
            query: None,
            tenant_context: None,
            request_id: None,
            expected_version: None,
        }
    }

    /// A request to create a resource of `resource_type` from `data`.
    pub fn create(resource_type: &str, data: JsonValue) -> (r: ScimOperationRequest)
        ensures
            plain_request(r, ScimOperationType::Create, resource_type@, None, Some(data)),
    {
        Self::plain(ScimOperationType::Create, resource_type, None, Some(data))
    }

    /// A request to get a resource.
    pub fn get(resource_type: &str, resource_id: &str) -> (r: ScimOperationRequest)
        ensures
            plain_request(r, ScimOperationType::Get, resource_type@, Some(resource_id@), None),
    {
        Self::plain(ScimOperationType::Get, resource_type, Some(resource_id), None)
    }

    /// A request to replace a resource with `data`.
    pub fn update(resource_type: &str, resource_id: &str, data: JsonValue) -> (r: ScimOperationRequest)
        ensures
            plain_request(r, ScimOperationType::Update, resource_type@, Some(resource_id@), Some(data)),
    {
        Self::plain(ScimOperationType::Update, resource_type, Some(resource_id), Some(data))
    }

    /// A request to delete a resource.
    pub fn delete(resource_type: &str, resource_id: &str) -> (r: ScimOperationRequest)
        ensures
            plain_request(r, ScimOperationType::Delete, resource_type@, Some(resource_id@), None),
    {
        Self::plain(ScimOperationType::Delete, resource_type, Some(resource_id), None)
    }

    /// A request to list the resources of a type.
    pub fn list(resource_type: &str) -> (r: ScimOperationRequest)
        ensures
            plain_request(r, ScimOperationType::List, resource_type@, None, None),
    {
        Self::plain(ScimOperationType::List, resource_type, None, None)
    }

    /// A request to search the resources of a type for an attribute value.
    pub fn search(resource_type: &str, attribute: &str, value: JsonValue) -> (r: ScimOperationRequest)
        ensures
            r.operation == ScimOperationType::Search,
            r.resource_type@ == resource_type@,
            r.resource_id is None,
            r.data is None,
            r.query matches Some(q) && q.count is None && q.start_index is None && q.filter is None
                && q.attributes is None && q.excluded_attributes is None && (q.search_attribute matches Some(
                a,
            ) && a@ == attribute@) && q.search_value == Some(value),
            r.tenant_context is None,
            r.request_id is None,
            r.expected_version is None,
    {
        let q = ScimQuery::new().with_search(attribute, value);
        let mut r = Self::plain(ScimOperationType::Search, resource_type, None, None);
        r.query = Some(q);
        r
    }

    /// A request for every registered schema.
    pub fn get_schemas() -> (r: ScimOperationRequest)
        ensures
            plain_request(r, ScimOperationType::GetSchemas, "Schema"@, None, None),
    {
        Self::plain(ScimOperationType::GetSchemas, "Schema", None, None)
    }

    /// A request for the schema with id `schema_id`.
    pub fn get_schema(schema_id: &str) -> (r: ScimOperationRequest)
        ensures
            plain_request(r, ScimOperationType::GetSchema, "Schema"@, Some(schema_id@), None),
    {
        Self::plain(ScimOperationType::GetSchema, "Schema", Some(schema_id), None)
    }

    /// A request to check whether a resource exists.
    pub fn check_exists(resource_type: &str, resource_id: &str) -> (r: ScimOperationRequest)
        ensures
            plain_request(r, ScimOperationType::Exists, resource_type@, Some(resource_id@), None),
    {
        Self::plain(ScimOperationType::Exists, resource_type, Some(resource_id), None)
    }

    /// This request in the given tenant.
    pub fn with_tenant(self, tenant_context: TenantContext) -> (r: ScimOperationRequest)
        ensures
            r == (ScimOperationRequest { tenant_context: Some(tenant_context), ..self }),
    {
        ScimOperationRequest { tenant_context: Some(tenant_context), ..self }
    }

    /// This request with the given request identifier.
    pub fn with_request_id(self, request_id: &str) -> (r: ScimOperationRequest)
        ensures
            r.request_id matches Some(x) && x@ == request_id@,
            r == (ScimOperationRequest { request_id: r.request_id, ..self }),
    {
        ScimOperationRequest { request_id: Some(owned(request_id)), ..self }
    }

    /// This request with the given query.
    pub fn with_query(self, query: ScimQuery) -> (r: ScimOperationRequest)
        ensures
            r == (ScimOperationRequest { query: Some(query), ..self }),
    {
        ScimOperationRequest { query: Some(query), ..self }
    }

    /// This request, conditional on the resource having `version`.
    pub fn with_expected_version(self, version: RawVersion) -> (r: ScimOperationRequest)
        ensures
            r == (ScimOperationRequest { expected_version: Some(version), ..self }),
    {
        ScimOperationRequest { expected_version: Some(version), ..self }
    }
}

} // verus!
