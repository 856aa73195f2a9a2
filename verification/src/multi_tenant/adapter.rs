//! A provider adapter that checks request contexts before delegating, and
//! helpers that build single- and multi-tenant request contexts.

use vstd::prelude::*;
use crate::ids::rfc3339_instant;
use crate::ids::is_uuid_v4_text;
use crate::json::JsonValue;
use crate::providers::error::{ProviderError, RawVersion};
use crate::providers::standard::{StandardResourceProvider, VersionedResource, expected_view};
use crate::resource::{ListQuery, RequestContext, TenantContext, TenantPermissions, IsolationLevel};
use crate::text::is_blank;
use crate::text::is_blank_text;

verus! {

/// Errors of the validating adapter.
#[derive(Debug, Clone)]
pub enum AdapterError<E> {
    /// The wrapped provider failed.
    Provider(E),
    /// The tenant of the request is unusable.
    TenantValidation { message: String },
    /// The request context is unusable.
    ContextConversion { message: String },
}

/// A provider that checks each request context before delegating.
pub struct TenantValidatingProvider<P> {
    inner: P,
}

/// The first problem of a request context, if any: a blank request id, or
/// a tenant with a blank id.
pub open spec fn context_problem<E>(context: RequestContext, r: Result<(), AdapterError<E>>) -> bool {
    if is_blank_text(context.request_id@) {
        r matches Err(AdapterError::ContextConversion { message }) && message@ == "Request ID cannot be empty"@
    } else if context.tenant_context matches Some(t) && is_blank_text(t.tenant_id@) {
        r matches Err(AdapterError::TenantValidation { message }) && message@ == "Tenant ID cannot be empty"@
    } else {
        r is Ok
    }
}

/// Whether a request context is usable.
pub open spec fn context_consistent(context: RequestContext) -> bool {
    !is_blank_text(context.request_id@) && !(context.tenant_context matches Some(t) && is_blank_text(t.tenant_id@))
}

/// An adapter result with its success value dropped.
pub open spec fn unit_of<T>(r: Result<T, AdapterError<ProviderError>>) -> Result<(), AdapterError<ProviderError>> {
    match r {
        Ok(_) => Ok(()),
        Err(e) => Err(e),
    }
}

/// A provider result as an adapter result.
pub open spec fn lift<T>(r: Result<T, ProviderError>) -> Result<T, AdapterError<ProviderError>> {
    match r {
        Ok(v) => Ok(v),
        Err(e) => Err(AdapterError::Provider(e)),
    }
}

fn lift_result<T>(r: Result<T, ProviderError>) -> (out: Result<T, AdapterError<ProviderError>>)
    ensures
        out == lift(r),
{
    match r {
        Ok(v) => Ok(v),
        Err(e) => Err(AdapterError::Provider(e)),
    }
}

impl<P> TenantValidatingProvider<P> {
    /// The wrapped provider.
    pub closed spec fn wrapped(&self) -> P {
        self.inner
    }

    /// Wraps `provider`.
    pub fn new(provider: P) -> (r: TenantValidatingProvider<P>)
        ensures
            r.wrapped() == provider,
    {
        TenantValidatingProvider { inner: provider }
    }

    /// The wrapped provider.
    pub fn inner(&self) -> (r: &P)
        ensures
            *r == self.wrapped(),
    {
        &self.inner
    }

    /// Unwraps the provider.
    pub fn into_inner(self) -> (r: P)
        ensures
            r == self.wrapped(),
    {
        self.inner
    }

    /// Fails when the request id is blank, or the request's tenant id is blank.
    pub fn validate_context_consistency<E>(&self, context: &RequestContext) -> (r: Result<(), AdapterError<E>>)
        ensures
            context_problem(*context, r),
            r is Ok <==> context_consistent(*context),
    {
        if is_blank(context.request_id.as_str()) {
            return Err(AdapterError::ContextConversion { message: "Request ID cannot be empty".to_string() });
        }
        match &context.tenant_context {
            Some(t) => {
                if is_blank(t.tenant_id.as_str()) {
                    return Err(AdapterError::TenantValidation { message: "Tenant ID cannot be empty".to_string() });
                }
            },
            None => {},
        }
        Ok(())
    }
}

impl TenantValidatingProvider<StandardResourceProvider> {
    /// Reads a resource after checking the context.
    pub fn get_resource(&self, resource_type: &str, id: &str, context: &RequestContext) -> (r: Result<Option<VersionedResource>, AdapterError<ProviderError>>)
        ensures
            !context_consistent(*context) ==> context_problem(*context, unit_of(r)),
            context_consistent(*context) ==> exists|inner_r: Result<Option<VersionedResource>, ProviderError>|
                r == lift(inner_r) && #[trigger] self.wrapped().get_outcome(inner_r, *context, resource_type@, id@),
    {
        match self.validate_context_consistency::<ProviderError>(context) {
            Ok(()) => {},
            Err(e) => {
                return Err(e);
            },
        }
        let inner_r = self.inner.get_resource(resource_type, id, context);
        assert(self.wrapped().get_outcome(inner_r, *context, resource_type@, id@));
        lift_result(inner_r)
    }

    /// Whether a resource exists, after checking the context.
    pub fn resource_exists(&self, resource_type: &str, id: &str, context: &RequestContext) -> (r: Result<bool, AdapterError<ProviderError>>)
        ensures
            !context_consistent(*context) ==> context_problem(*context, unit_of(r)),
            context_consistent(*context) ==> r == Ok::<bool, AdapterError<ProviderError>>(
                self.wrapped().store().contains_key((crate::providers::standard::effective_tenant(*context), resource_type@, id@)),
            ),
    {
        match self.validate_context_consistency::<ProviderError>(context) {
            Ok(()) => {},
            Err(e) => {
                return Err(e);
            },
        }
        lift_result(self.inner.resource_exists(resource_type, id, context))
    }

    /// Creates a resource after checking the context.
    pub fn create_resource(&mut self, resource_type: &str, data: JsonValue, context: &RequestContext) -> (r: Result<VersionedResource, AdapterError<ProviderError>>)
        ensures
            !context_consistent(*context) ==> context_problem(*context, unit_of(r))
                && final(self).wrapped() == old(self).wrapped(),
            context_consistent(*context) ==> exists|inner_r: Result<VersionedResource, ProviderError>, generated_id: Seq<char>, now: Seq<char>|
                r == lift(inner_r) && rfc3339_instant(now) is Some && #[trigger] StandardResourceProvider::create_outcome(
                    old(self).wrapped(),
                    final(self).wrapped(),
                    inner_r,
                    *context,
                    resource_type@,
                    data@,
                    generated_id,
                    now,
                ),
    {
        match self.validate_context_consistency::<ProviderError>(context) {
            Ok(()) => {},
            Err(e) => {
                return Err(e);
            },
        }
        let ghost before = self.inner;
        let inner_r = self.inner.create_resource(resource_type, data, context);
        proof {
            let (g, n) = choose|g: Seq<char>, n: Seq<char>|
                is_uuid_v4_text(g) && StandardResourceProvider::create_outcome(before, self.inner, inner_r, *context, resource_type@, data@, g, n);
            assert(StandardResourceProvider::create_outcome(old(self).wrapped(), self.wrapped(), inner_r, *context, resource_type@, data@, g, n));
        }
        lift_result(inner_r)
    }

    /// Replaces a resource after checking the context.
    pub fn update_resource(
        &mut self,
        resource_type: &str,
        id: &str,
        data: JsonValue,
        expected_version: Option<&RawVersion>,
        context: &RequestContext,
    ) -> (r: Result<VersionedResource, AdapterError<ProviderError>>)
        ensures
            !context_consistent(*context) ==> context_problem(*context, unit_of(r))
                && final(self).wrapped() == old(self).wrapped(),
            context_consistent(*context) ==> exists|inner_r: Result<VersionedResource, ProviderError>, now: Seq<char>|
                r == lift(inner_r) && rfc3339_instant(now) is Some && #[trigger] StandardResourceProvider::update_outcome(
                    old(self).wrapped(),
                    final(self).wrapped(),
                    inner_r,
                    *context,
                    resource_type@,
                    id@,
                    data@,
                    expected_view(expected_version),
                    now,
                ),
    {
        match self.validate_context_consistency::<ProviderError>(context) {
            Ok(()) => {},
            Err(e) => {
                return Err(e);
            },
        }
        let ghost before = self.inner;
        let inner_r = self.inner.update_resource(resource_type, id, data, expected_version, context);
        proof {
            let n = choose|n: Seq<char>|
                StandardResourceProvider::update_outcome(before, self.inner, inner_r, *context, resource_type@, id@, data@, expected_view(expected_version), n);
            assert(StandardResourceProvider::update_outcome(old(self).wrapped(), self.wrapped(), inner_r, *context, resource_type@, id@, data@, expected_view(expected_version), n));
        }
        lift_result(inner_r)
    }

    /// Deletes a resource after checking the context.
    pub fn delete_resource(
        &mut self,
        resource_type: &str,
        id: &str,
        expected_version: Option<&RawVersion>,
        context: &RequestContext,
    ) -> (r: Result<(), AdapterError<ProviderError>>)
        ensures
            !context_consistent(*context) ==> context_problem(*context, r) && final(self).wrapped() == old(self).wrapped(),
            context_consistent(*context) ==> exists|inner_r: Result<(), ProviderError>|
                r == lift(inner_r) && #[trigger] StandardResourceProvider::delete_outcome(
                    old(self).wrapped(),
                    final(self).wrapped(),
                    inner_r,
                    *context,
                    resource_type@,
                    id@,
                    expected_view(expected_version),
                ),
    {
        match self.validate_context_consistency::<ProviderError>(context) {
            Ok(()) => {},
            Err(e) => {
                return Err(e);
            },
        }
        let inner_r = self.inner.delete_resource(resource_type, id, expected_version, context);
        assert(StandardResourceProvider::delete_outcome(old(self).wrapped(), self.wrapped(), inner_r, *context, resource_type@, id@, expected_view(expected_version)));
        lift_result(inner_r)
    }

    /// Patches a resource after checking the context.
    pub fn patch_resource(
        &mut self,
        resource_type: &str,
        id: &str,
        patch_request: &JsonValue,
        expected_version: Option<&RawVersion>,
        context: &RequestContext,
    ) -> (r: Result<VersionedResource, AdapterError<ProviderError>>)
        ensures
            !context_consistent(*context) ==> context_problem(*context, unit_of(r))
                && final(self).wrapped() == old(self).wrapped(),
            context_consistent(*context) ==> exists|inner_r: Result<VersionedResource, ProviderError>|
                r == lift(inner_r) && #[trigger] StandardResourceProvider::patch_outcome(
                    old(self).wrapped(),
                    final(self).wrapped(),
                    inner_r,
                    *context,
                    resource_type@,
                    id@,
                    patch_request@,
                    expected_view(expected_version),
                ),
    {
        match self.validate_context_consistency::<ProviderError>(context) {
            Ok(()) => {},
            Err(e) => {
                return Err(e);
            },
        }
        let inner_r = self.inner.patch_resource(resource_type, id, patch_request, expected_version, context);
        assert(StandardResourceProvider::patch_outcome(old(self).wrapped(), self.wrapped(), inner_r, *context, resource_type@, id@, patch_request@, expected_view(expected_version)));
        lift_result(inner_r)
    }

    /// Lists resources after checking the context.
    pub fn list_resources(&self, resource_type: &str, query: Option<&ListQuery>, context: &RequestContext) -> (r: Result<Vec<VersionedResource>, AdapterError<ProviderError>>)
        ensures
            !context_consistent(*context) ==> context_problem(*context, unit_of(r)),
            context_consistent(*context) ==> (r is Ok <==> crate::providers::standard::context_permits(*context, "list"@)),
    {
        match self.validate_context_consistency::<ProviderError>(context) {
            Ok(()) => {},
            Err(e) => {
                return Err(e);
            },
        }
        lift_result(self.inner.list_resources(resource_type, query, context))
    }

    /// Finds resources by attribute after checking the context.
    pub fn find_resources_by_attribute(
        &self,
        resource_type: &str,
        attribute_name: &str,
        attribute_value: &str,
        context: &RequestContext,
    ) -> (r: Result<Vec<VersionedResource>, AdapterError<ProviderError>>)
        ensures
            !context_consistent(*context) ==> context_problem(*context, unit_of(r)),
            context_consistent(*context) ==> r is Ok,
    {
        match self.validate_context_consistency::<ProviderError>(context) {
            Ok(()) => {},
            Err(e) => {
                return Err(e);
            },
        }
        lift_result(self.inner.find_resources_by_attribute(resource_type, attribute_name, attribute_value, context))
    }
}

/// Conversion of a provider into a context-validating one.
pub trait ToSingleTenant<P> {
    /// Wraps this provider.
    fn to_single_tenant(self) -> TenantValidatingProvider<P>;
}

impl ToSingleTenant<StandardResourceProvider> for StandardResourceProvider {
    fn to_single_tenant(self) -> (r: TenantValidatingProvider<StandardResourceProvider>)
        ensures
            r.wrapped() == self,
    {
        TenantValidatingProvider::new(self)
    }
}

/// Builders of request contexts.
pub struct ContextConverter;

impl ContextConverter {
    /// A single-tenant context with the given or a generated request id.
    pub fn single_tenant_context(request_id: Option<String>) -> (r: RequestContext)
        ensures
            request_id matches Some(id) ==> r.request_id == id,
            request_id is None ==> is_uuid_v4_text(r.request_id@),
            r.tenant_context is None,
            r.user_context is None,
            r.metadata@ == Map::<Seq<char>, String>::empty(),
    {
        match request_id {
            Some(id) => RequestContext::with_id(id),
            None => RequestContext::with_generated_id(),
        }
    }

    /// A multi-tenant context for `tenant_id`, with client `default-client`
    /// when none is given, default permissions and standard isolation.
    pub fn multi_tenant_context(tenant_id: String, client_id: Option<String>, request_id: Option<String>) -> (r: RequestContext)
        ensures
            request_id matches Some(id) ==> r.request_id == id,
            request_id is None ==> is_uuid_v4_text(r.request_id@),
            r.tenant_context matches Some(t) && t.tenant_id == tenant_id && t.client_id@ == match client_id {
                Some(c) => c@,
                None => "default-client"@,
            } && t.permissions == TenantPermissions::spec_default() && t.isolation_level == IsolationLevel::Standard,
            r.user_context is None,
    {
        let client = match client_id {
            Some(c) => c,
            None => "default-client".to_string(),
        };
        let tenant_context = TenantContext {
            tenant_id,
            client_id: client,
            permissions: TenantPermissions::default(),
            isolation_level: IsolationLevel::default(),
        };
        match request_id {
            Some(id) => RequestContext::with_tenant(id, tenant_context),
            None => RequestContext::with_tenant_generated_id(tenant_context),
        }
    }
}

} // verus!
