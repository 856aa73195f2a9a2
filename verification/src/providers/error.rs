//! Errors of resource provider operations.

use vstd::prelude::*;
use crate::text::concat;

verus! {

/// A resource version, as carried in ETags.
#[derive(Debug, Clone)]
pub struct RawVersion {
    pub value: String,
}

impl RawVersion {
    /// The text of this version.
    pub open spec fn view(&self) -> Seq<char> {
        self.value@
    }

    /// The text of this version.
    pub fn as_str(&self) -> (r: &str)
        ensures
            r@ == self@,
    {
        self.value.as_str()
    }

    /// A copy of this version.
    pub fn copy(&self) -> (r: RawVersion)
        ensures
            r@ == self@,
    {
        RawVersion { value: self.value.clone() }
    }

    /// The version with the given text.
    pub fn from_hash(hash: &str) -> (r: RawVersion)
        ensures
            r@ == hash@,
    {
        RawVersion { value: hash.to_owned() }
    }
}

/// The message of a standard version conflict.
pub open spec fn standard_conflict_message(expected: Seq<char>, current: Seq<char>) -> Seq<char> {
    "Resource was modified by another client. Expected version "@ + expected + ", current version "@
        + current
}

impl VersionConflict {
    /// A conflict between the expected and the current version, with a message.
    pub fn new(expected: RawVersion, current: RawVersion, message: &str) -> (r: VersionConflict)
        ensures
            r.expected == expected,
            r.current == current,
            r.message@ == message@,
    {
        VersionConflict { expected, current, message: message.to_owned() }
    }

    /// A conflict with the standard message naming both versions.
    pub fn standard_message(expected: RawVersion, current: RawVersion) -> (r: VersionConflict)
        ensures
            r.expected == expected,
            r.current == current,
            r.message@ == standard_conflict_message(expected@, current@),
    {
        let a = concat("Resource was modified by another client. Expected version ", expected.as_str());
        let b = concat(a.as_str(), ", current version ");
        let message = concat(b.as_str(), current.as_str());
        VersionConflict { expected, current, message }
    }
}

/// Two versions that did not match: the one a client expected and the one stored.
#[derive(Debug, Clone)]
pub struct VersionConflict {
    pub expected: RawVersion,
    pub current: RawVersion,
    pub message: String,
}

/// Mathematical model of a provider error.
pub enum ErrorModel {
    ResourceNotFound { resource_type: Seq<char>, id: Seq<char>, tenant_id: Seq<char> },
    DuplicateAttribute {
        resource_type: Seq<char>,
        attribute: Seq<char>,
        value: Seq<char>,
        tenant_id: Seq<char>,
    },
    InvalidData { message: Seq<char> },
    QueryError { message: Seq<char> },
    Storage { message: Seq<char> },
    Internal { message: Seq<char> },
    InvalidInput { message: Seq<char> },
    NotFound { resource_type: Seq<char>, id: Seq<char> },
    PreconditionFailed { message: Seq<char> },
    DuplicateUserName { resource_type: Seq<char>, username: Seq<char>, tenant_id: Seq<char> },
    PatchOperationFailed { message: Seq<char> },
    VersionConflict { expected: Seq<char>, current: Seq<char>, message: Seq<char> },
}

/// Errors that can occur during resource provider operations.
#[derive(Debug, Clone)]
pub enum ProviderError {
    ResourceNotFound { resource_type: String, id: String, tenant_id: String },
    DuplicateAttribute { resource_type: String, attribute: String, value: String, tenant_id: String },
    InvalidData { message: String },
    QueryError { message: String },
    Storage { message: String },
    Internal { message: String },
    InvalidInput { message: String },
    NotFound { resource_type: String, id: String },
    PreconditionFailed { message: String },
    DuplicateUserName { resource_type: String, username: String, tenant_id: String },
    PatchOperationFailed { message: String },
    VersionConflict { conflict: VersionConflict },
}

impl ProviderError {
    /// The model of this error.
    pub open spec fn view(&self) -> ErrorModel {
        match self {
            ProviderError::ResourceNotFound { resource_type, id, tenant_id } => ErrorModel::ResourceNotFound {
                resource_type: resource_type@,
                id: id@,
                tenant_id: tenant_id@,
            },
            ProviderError::DuplicateAttribute { resource_type, attribute, value, tenant_id } => ErrorModel::DuplicateAttribute {
                resource_type: resource_type@,
                attribute: attribute@,
                value: value@,
                tenant_id: tenant_id@,
            },
            ProviderError::InvalidData { message } => ErrorModel::InvalidData { message: message@ },
            ProviderError::QueryError { message } => ErrorModel::QueryError { message: message@ },
            ProviderError::Storage { message } => ErrorModel::Storage { message: message@ },
            ProviderError::Internal { message } => ErrorModel::Internal { message: message@ },
            ProviderError::InvalidInput { message } => ErrorModel::InvalidInput { message: message@ },
            ProviderError::NotFound { resource_type, id } => ErrorModel::NotFound {
                resource_type: resource_type@,
                id: id@,
            },
            ProviderError::PreconditionFailed { message } => ErrorModel::PreconditionFailed {
                message: message@,
            },
            ProviderError::DuplicateUserName { resource_type, username, tenant_id } => ErrorModel::DuplicateUserName {
                resource_type: resource_type@,
                username: username@,
                tenant_id: tenant_id@,
            },
            ProviderError::PatchOperationFailed { message } => ErrorModel::PatchOperationFailed {
                message: message@,
            },
            ProviderError::VersionConflict { conflict } => ErrorModel::VersionConflict {
                expected: conflict.expected@,
                current: conflict.current@,
                message: conflict.message@,
            },
        }
    }

    /// An internal error carrying `message`.
    pub fn from_message(message: String) -> (r: ProviderError)
        ensures
            r@ == (ErrorModel::Internal { message: message@ }),
    {
        ProviderError::Internal { message }
    }

    /// The human-readable text of this error.
    pub fn message(&self) -> (r: String)
        ensures
            r@ == provider_error_text(self@),
    {
        match self {
            ProviderError::ResourceNotFound { resource_type, id, tenant_id } => join5(
                "Resource not found: ",
                resource_type.as_str(),
                " with id '",
                id.as_str(),
                "'",
            ).concat(" in tenant '").concat(tenant_id.as_str()).concat("'"),
            ProviderError::DuplicateAttribute { resource_type, attribute, value, tenant_id } => join5(
                "Duplicate attribute '",
                attribute.as_str(),
                "' with value '",
                value.as_str(),
                "' for ",
            ).concat(resource_type.as_str()).concat(" in tenant '").concat(tenant_id.as_str()).concat("'"),
            ProviderError::InvalidData { message } => concat("Invalid resource data: ", message.as_str()),
            ProviderError::QueryError { message } => concat("Query error: ", message.as_str()),
            ProviderError::Storage { message } => concat("Storage error: ", message.as_str()),
            ProviderError::Internal { message } => concat("Internal error: ", message.as_str()),
            ProviderError::InvalidInput { message } => concat("Invalid input: ", message.as_str()),
            ProviderError::NotFound { resource_type, id } => join5(
                "Resource not found: ",
                resource_type.as_str(),
                " with id '",
                id.as_str(),
                "'",
            ),
            ProviderError::PreconditionFailed { message } => concat("Precondition failed: ", message.as_str()),
            ProviderError::DuplicateUserName { resource_type, username, tenant_id } => join5(
                "Duplicate resource: ",
                resource_type.as_str(),
                " with userName '",
                username.as_str(),
                "' already exists in tenant '",
            ).concat(tenant_id.as_str()).concat("'"),
            ProviderError::PatchOperationFailed { message } => concat("Patch operation failed: ", message.as_str()),
            ProviderError::VersionConflict { conflict } => concat("Version conflict: ", conflict.message.as_str()),
        }
    }
}

fn join5(a: &str, b: &str, c: &str, d: &str, e: &str) -> (r: String)
    ensures
        r@ == a@ + b@ + c@ + d@ + e@,
{
    concat(a, b).concat(c).concat(d).concat(e)
}

/// The human-readable text of a provider error.
pub open spec fn provider_error_text(e: ErrorModel) -> Seq<char> {
    match e {
        ErrorModel::ResourceNotFound { resource_type, id, tenant_id } => "Resource not found: "@ + resource_type
            + " with id '"@ + id + "'"@ + " in tenant '"@ + tenant_id + "'"@,
        ErrorModel::DuplicateAttribute { resource_type, attribute, value, tenant_id } => "Duplicate attribute '"@
            + attribute + "' with value '"@ + value + "' for "@ + resource_type + " in tenant '"@ + tenant_id
            + "'"@,
        ErrorModel::InvalidData { message } => "Invalid resource data: "@ + message,
        ErrorModel::QueryError { message } => "Query error: "@ + message,
        ErrorModel::Storage { message } => "Storage error: "@ + message,
        ErrorModel::Internal { message } => "Internal error: "@ + message,
        ErrorModel::InvalidInput { message } => "Invalid input: "@ + message,
        ErrorModel::NotFound { resource_type, id } => "Resource not found: "@ + resource_type + " with id '"@ + id
            + "'"@,
        ErrorModel::PreconditionFailed { message } => "Precondition failed: "@ + message,
        ErrorModel::DuplicateUserName { resource_type, username, tenant_id } => "Duplicate resource: "@
            + resource_type + " with userName '"@ + username + "' already exists in tenant '"@ + tenant_id
            + "'"@,
        ErrorModel::PatchOperationFailed { message } => "Patch operation failed: "@ + message,
        ErrorModel::VersionConflict { message, .. } => "Version conflict: "@ + message,
    }
}

} // verus!
