//! Resource providers: the standard provider over in-memory storage, its
//! error types, and the PATCH operations and validation it applies.

pub mod error;
pub mod in_memory;
pub mod patch;
pub mod standard;
pub mod validation;
pub mod tenant;
pub mod metadata;
pub mod conditional;
