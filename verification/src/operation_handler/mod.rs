//! Transport-independent handling of SCIM operations: structured requests,
//! dispatch to the resource provider and the schema registry, and structured
//! responses carrying version and ETag information.

pub mod errors;
pub mod handler;
pub mod request;

pub use errors::{ScimError, create_error_response, create_version_conflict_response};
pub use handler::ScimOperationHandler;
pub use request::{OperationMetadata, ScimOperationRequest, ScimOperationResponse, ScimOperationType, ScimQuery};
pub mod laws;
