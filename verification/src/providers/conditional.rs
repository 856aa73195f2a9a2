//! Operations conditional on a resource's version: the resource is read
//! first, and the write is carried out only when its version is the one the
//! client expects.

use vstd::prelude::*;
use crate::ids::rfc3339_instant;
use crate::ids::is_uuid_v4_text;
use crate::json::JsonValue;
use crate::providers::error::{ProviderError, RawVersion, VersionConflict, standard_conflict_message};
use crate::providers::standard::{
    ConditionalResult,
    StandardResourceProvider,
    VersionedResource,
    context_permits,
    effective_tenant,
    doc_version,
    refused_error,
    version_text,
};
use crate::resource::RequestContext;
use crate::text::{concat, is_blank, is_blank_text, str_eq};

verus! {

/// Whether the provider is unchanged.
pub open spec fn unchanged(old_p: StandardResourceProvider, new_p: StandardResourceProvider) -> bool {
    new_p.store() == old_p.store()
}

/// Whether the read that precedes a conditional write settles its outcome:
/// the read is refused, the resource is missing, or its version differs.
/// When it does, nothing changes.
pub open spec fn read_settles<T>(
    old_p: StandardResourceProvider,
    new_p: StandardResourceProvider,
    r: Result<ConditionalResult<T>, ProviderError>,
    context: RequestContext,
    resource_type: Seq<char>,
    id: Seq<char>,
    expected: Seq<char>,
) -> bool {
    let key = (effective_tenant(context), resource_type, id);
    if !context_permits(context, "read"@) {
        r matches Err(e) && e@ == refused_error(context, "read"@) && unchanged(old_p, new_p)
    } else if !old_p.store().contains_key(key) {
        r matches Ok(ConditionalResult::NotFound) && unchanged(old_p, new_p)
    } else if version_text(doc_version(old_p.store()[key].data)) != expected {
        r matches Ok(ConditionalResult::VersionMismatch(c)) && c.expected@ == expected && c.current@
            == version_text(doc_version(old_p.store()[key].data)) && c.message@ == standard_conflict_message(
            expected,
            version_text(doc_version(old_p.store()[key].data)),
        ) && unchanged(old_p, new_p)
    } else {
        false
    }
}

/// Whether the read that precedes a conditional write lets it proceed.
pub open spec fn read_matches(
    p: StandardResourceProvider,
    context: RequestContext,
    resource_type: Seq<char>,
    id: Seq<char>,
    expected: Seq<char>,
) -> bool {
    let key = (effective_tenant(context), resource_type, id);
    context_permits(context, "read"@) && p.store().contains_key(key) && version_text(doc_version(p.store()[key].data))
        == expected
}

/// The message of a version conflict, naming the resource when `info` is given.
pub open spec fn conflict_message(expected: Seq<char>, current: Seq<char>, info: Option<Seq<char>>) -> Seq<char> {
    match info {
        Some(i) => "Resource "@ + i + " was modified by another client. Expected version "@ + expected
            + ", current version "@ + current,
        None => standard_conflict_message(expected, current),
    }
}

impl StandardResourceProvider {
    /// Reads the resource and compares its version with `expected`: the read's
    /// error, `None` when the resource is missing, else whether the versions
    /// are equal together with the current version.
    fn read_version(
        &self,
        resource_type: &str,
        id: &str,
        context: &RequestContext,
    ) -> (r: Result<Option<RawVersion>, ProviderError>)
        ensures
            ({
                let key = (effective_tenant(*context), resource_type@, id@);
                if !context_permits(*context, "read"@) {
                    r matches Err(e) && e@ == refused_error(*context, "read"@)
                } else if !self.store().contains_key(key) {
                    r matches Ok(None)
                } else {
                    r matches Ok(Some(v)) && v@ == version_text(doc_version(self.store()[key].data))
                }
            }),
    {
        match self.get_resource(resource_type, id, context) {
            Ok(Some(vr)) => Ok(Some(vr.version)),
            Ok(None) => Ok(None),
            Err(e) => Err(e),
        }
    }

}

/// Operations conditional on a resource's version, for providers.
pub trait ConditionalOperations {
    /// Replaces a resource when its current version is `expected_version`.
    fn conditional_update_resource(
        &mut self,
        resource_type: &str,
        id: &str,
        data: JsonValue,
        expected_version: &RawVersion,
        context: &RequestContext,
    ) -> Result<ConditionalResult<VersionedResource>, ProviderError>;

    /// Deletes a resource when its current version is `expected_version`.
    fn conditional_delete_resource(
        &mut self,
        resource_type: &str,
        id: &str,
        expected_version: &RawVersion,
        context: &RequestContext,
    ) -> Result<ConditionalResult<()>, ProviderError>;

    /// Applies a PATCH request when the resource's current version is `expected_version`.
    fn conditional_patch_resource(
        &mut self,
        resource_type: &str,
        id: &str,
        patch_request: &JsonValue,
        expected_version: &RawVersion,
        context: &RequestContext,
    ) -> Result<ConditionalResult<VersionedResource>, ProviderError>;

    /// Creates a resource and returns it with its version.
    fn create_versioned_resource(
        &mut self,
        resource_type: &str,
        data: JsonValue,
        context: &RequestContext,
    ) -> Result<VersionedResource, ProviderError>;

    /// Whether the resource's current version is `expected_version`; `None`
    /// when the resource does not exist.
    fn check_resource_version(
        &self,
        resource_type: &str,
        id: &str,
        expected_version: &RawVersion,
        context: &RequestContext,
    ) -> Result<Option<bool>, ProviderError>;

    /// The resource's current version; `None` when it does not exist.
    fn get_resource_version(
        &self,
        resource_type: &str,
        id: &str,
        context: &RequestContext,
    ) -> Result<Option<RawVersion>, ProviderError>;

    /// Whether a version is usable: it is not blank.
    fn is_valid_version(&self, version: &RawVersion) -> bool;

    /// A version conflict between `expected` and `current`, whose message
    /// names the resource when `resource_info` is given.
    fn create_version_conflict(
        &self,
        expected: RawVersion,
        current: RawVersion,
        resource_info: Option<&str>,
    ) -> VersionConflict;
}

impl ConditionalOperations for StandardResourceProvider {
    /// Replaces a resource when its current version is `expected_version`.
    fn conditional_update_resource(
        &mut self,
        resource_type: &str,
        id: &str,
        data: JsonValue,
        expected_version: &RawVersion,
        context: &RequestContext,
    ) -> (r: Result<ConditionalResult<VersionedResource>, ProviderError>)
        ensures
            read_matches(*old(self), *context, resource_type@, id@, expected_version@) ==> exists|
                pr: Result<VersionedResource, ProviderError>,
                now: Seq<char>,
            |
                #[trigger] StandardResourceProvider::update_outcome(
                    *old(self),
                    *final(self),
                    pr,
                    *context,
                    resource_type@,
                    id@,
                    data@,
                    None,
                    now,
                ) && match pr {
                    Ok(vr) => r matches Ok(ConditionalResult::Success(x)) && x == vr,
                    Err(e) => r matches Err(x) && x == e,
                },
            !read_matches(*old(self), *context, resource_type@, id@, expected_version@) ==> read_settles(
                *old(self),
                *final(self),
                r,
                *context,
                resource_type@,
                id@,
                expected_version@,
            ),
    {
        let current = match self.read_version(resource_type, id, context) {
            Ok(Some(v)) => v,
            Ok(None) => {
                return Ok(ConditionalResult::NotFound);
            },
            Err(e) => {
                return Err(e);
            },
        };
        if !str_eq(current.as_str(), expected_version.as_str()) {
            return Ok(ConditionalResult::VersionMismatch(VersionConflict::standard_message(expected_version.copy(), current)));
        }
        let ghost dv = data@;
        let pr = self.update_resource(resource_type, id, data, None, context);
        let ghost gpr = pr;
        let ghost now = choose|now: Seq<char>|
            #[trigger] StandardResourceProvider::update_outcome(
                *old(self),
                *self,
                pr,
                *context,
                resource_type@,
                id@,
                dv,
                None,
                now,
            );
        match pr {
            Ok(vr) => Ok(ConditionalResult::Success(vr)),
            Err(e) => Err(e),
        }
    }

    /// Deletes a resource when its current version is `expected_version`.
    fn conditional_delete_resource(
        &mut self,
        resource_type: &str,
        id: &str,
        expected_version: &RawVersion,
        context: &RequestContext,
    ) -> (r: Result<ConditionalResult<()>, ProviderError>)
        ensures
            read_matches(*old(self), *context, resource_type@, id@, expected_version@) ==> exists|
                pr: Result<(), ProviderError>,
            |
                #[trigger] StandardResourceProvider::delete_outcome(
                    *old(self),
                    *final(self),
                    pr,
                    *context,
                    resource_type@,
                    id@,
                    None,
                ) && match pr {
                    Ok(_) => r matches Ok(ConditionalResult::Success(_)),
                    Err(e) => r matches Err(x) && x == e,
                },
            !read_matches(*old(self), *context, resource_type@, id@, expected_version@) ==> read_settles(
                *old(self),
                *final(self),
                r,
                *context,
                resource_type@,
                id@,
                expected_version@,
            ),
    {
        let current = match self.read_version(resource_type, id, context) {
            Ok(Some(v)) => v,
            Ok(None) => {
                return Ok(ConditionalResult::NotFound);
            },
            Err(e) => {
                return Err(e);
            },
        };
        if !str_eq(current.as_str(), expected_version.as_str()) {
            return Ok(ConditionalResult::VersionMismatch(VersionConflict::standard_message(expected_version.copy(), current)));
        }
        let pr = self.delete_resource(resource_type, id, None, context);
        let ghost gpr = pr;
        let r = match pr {
            Ok(()) => Ok(ConditionalResult::Success(())),
            Err(e) => Err(e),
        };
        assert(StandardResourceProvider::delete_outcome(*old(self), *self, gpr, *context, resource_type@, id@, None));
        r
    }

    /// Applies a PATCH request when the resource's current version is `expected_version`.
    fn conditional_patch_resource(
        &mut self,
        resource_type: &str,
        id: &str,
        patch_request: &JsonValue,
        expected_version: &RawVersion,
        context: &RequestContext,
    ) -> (r: Result<ConditionalResult<VersionedResource>, ProviderError>)
        ensures
            read_matches(*old(self), *context, resource_type@, id@, expected_version@) ==> exists|
                pr: Result<VersionedResource, ProviderError>,
            |
                #[trigger] StandardResourceProvider::patch_outcome(
                    *old(self),
                    *final(self),
                    pr,
                    *context,
                    resource_type@,
                    id@,
                    patch_request@,
                    None,
                ) && match pr {
                    Ok(vr) => r matches Ok(ConditionalResult::Success(x)) && x == vr,
                    Err(e) => r matches Err(x) && x == e,
                },
            !read_matches(*old(self), *context, resource_type@, id@, expected_version@) ==> read_settles(
                *old(self),
                *final(self),
                r,
                *context,
                resource_type@,
                id@,
                expected_version@,
            ),
    {
        let current = match self.read_version(resource_type, id, context) {
            Ok(Some(v)) => v,
            Ok(None) => {
                return Ok(ConditionalResult::NotFound);
            },
            Err(e) => {
                return Err(e);
            },
        };
        if !str_eq(current.as_str(), expected_version.as_str()) {
            return Ok(ConditionalResult::VersionMismatch(VersionConflict::standard_message(expected_version.copy(), current)));
        }
        let pr = self.patch_resource(resource_type, id, patch_request, None, context);
        let ghost gpr = pr;
        assert(StandardResourceProvider::patch_outcome(
            *old(self),
            *self,
            gpr,
            *context,
            resource_type@,
            id@,
            patch_request@,
            None,
        ));
        match pr {
            Ok(vr) => Ok(ConditionalResult::Success(vr)),
            Err(e) => Err(e),
        }
    }

    /// Creates a resource and returns it with its version.
    fn create_versioned_resource(
        &mut self,
        resource_type: &str,
        data: JsonValue,
        context: &RequestContext,
    ) -> (r: Result<VersionedResource, ProviderError>)
        ensures
            exists|generated_id: Seq<char>, now: Seq<char>|
                is_uuid_v4_text(generated_id) && rfc3339_instant(now) is Some && Self::create_outcome(
                    *old(self),
                    *final(self),
                    r,
                    *context,
                    resource_type@,
                    data@,
                    generated_id,
                    now,
                ),
    {
        self.create_resource(resource_type, data, context)
    }

    /// Whether the resource's current version is `expected_version`; `None`
    /// when the resource does not exist.
    fn check_resource_version(
        &self,
        resource_type: &str,
        id: &str,
        expected_version: &RawVersion,
        context: &RequestContext,
    ) -> (r: Result<Option<bool>, ProviderError>)
        ensures
            ({
                let key = (effective_tenant(*context), resource_type@, id@);
                if !context_permits(*context, "read"@) {
                    r matches Err(e) && e@ == refused_error(*context, "read"@)
                } else if !self.store().contains_key(key) {
                    r matches Ok(None)
                } else {
                    r matches Ok(Some(b)) && b == (version_text(doc_version(self.store()[key].data)) == expected_version@)
                }
            }),
    {
        match self.read_version(resource_type, id, context) {
            Ok(Some(v)) => Ok(Some(str_eq(v.as_str(), expected_version.as_str()))),
            Ok(None) => Ok(None),
            Err(e) => Err(e),
        }
    }

    /// The resource's current version; `None` when it does not exist.
    fn get_resource_version(
        &self,
        resource_type: &str,
        id: &str,
        context: &RequestContext,
    ) -> (r: Result<Option<RawVersion>, ProviderError>)
        ensures
            ({
                let key = (effective_tenant(*context), resource_type@, id@);
                if !context_permits(*context, "read"@) {
                    r matches Err(e) && e@ == refused_error(*context, "read"@)
                } else if !self.store().contains_key(key) {
                    r matches Ok(None)
                } else {
                    r matches Ok(Some(v)) && v@ == version_text(doc_version(self.store()[key].data))
                }
            }),
    {
        self.read_version(resource_type, id, context)
    }

    /// Whether a version is usable: it is not blank.
    fn is_valid_version(&self, version: &RawVersion) -> (r: bool)
        ensures
            r == !is_blank_text(version@),
    {
        !is_blank(version.as_str())
    }

    /// A version conflict between `expected` and `current`, whose message
    /// names the resource when `resource_info` is given.
    fn create_version_conflict(
        &self,
        expected: RawVersion,
        current: RawVersion,
        resource_info: Option<&str>,
    ) -> (r: VersionConflict)
        ensures
            r.expected == expected,
            r.current == current,
            r.message@ == conflict_message(
                expected@,
                current@,
                match resource_info {
                    Some(i) => Some(i@),
                    None => None,
                },
            ),
    {
        match resource_info {
            Some(info) => {
                let a = concat("Resource ", info);
                let b = concat(a.as_str(), " was modified by another client. Expected version ");
                let c = concat(b.as_str(), expected.as_str());
                let d = concat(c.as_str(), ", current version ");
                let message = concat(d.as_str(), current.as_str());
                VersionConflict { expected, current, message }
            },
            None => VersionConflict::standard_message(expected, current),
        }
    }
}

} // verus!
