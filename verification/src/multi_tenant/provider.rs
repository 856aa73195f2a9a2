//! Validation of the tenant carried by a request.

use vstd::prelude::*;
use crate::resource::{RequestContext, tenant_of};
use crate::text::{concat, str_eq};

verus! {

/// The message when a request's tenant differs from the expected one.
pub open spec fn mismatch_message(actual: Seq<char>, expected: Seq<char>) -> Seq<char> {
    "Tenant mismatch: context has '"@ + actual + "', operation requested '"@ + expected + "'"@
}

/// The message when a request without tenant meets a multi-tenant operation.
pub open spec fn missing_tenant_message(expected: Seq<char>) -> Seq<char> {
    "Multi-tenant operation requested '"@ + expected + "' but context has no tenant"@
}

/// The message when a request with a tenant meets a single-tenant operation.
pub open spec fn unexpected_tenant_message(tenant: Seq<char>) -> Seq<char> {
    "Single-tenant operation but context has tenant '"@ + tenant + "'"@
}

/// Checks of the tenant carried by a request.
pub trait TenantValidator {
    /// Succeeds when the request's tenant is `expected_tenant_id`.
    fn validate_tenant_context(&self, expected_tenant_id: &str, context: &RequestContext) -> (r: Result<(), String>)
        ensures
            match tenant_of(context.tenant_context) {
                Some(actual) => if actual == expected_tenant_id@ {
                    r is Ok
                } else {
                    r matches Err(m) && m@ == mismatch_message(actual, expected_tenant_id@)
                },
                None => r matches Err(m) && m@ == missing_tenant_message(expected_tenant_id@),
            },
    {
        match context.tenant_id() {
            Some(actual) => {
                if str_eq(actual.as_str(), expected_tenant_id) {
                    Ok(())
                } else {
                    let a = concat("Tenant mismatch: context has '", actual.as_str());
                    let b = concat(a.as_str(), "', operation requested '");
                    let c = concat(b.as_str(), expected_tenant_id);
                    Err(concat(c.as_str(), "'"))
                }
            },
            None => {
                let a = concat("Multi-tenant operation requested '", expected_tenant_id);
                Err(concat(a.as_str(), "' but context has no tenant"))
            },
        }
    }

    /// Succeeds when the request has no tenant.
    fn validate_single_tenant_context(&self, context: &RequestContext) -> (r: Result<(), String>)
        ensures
            match tenant_of(context.tenant_context) {
                Some(t) => r matches Err(m) && m@ == unexpected_tenant_message(t),
                None => r is Ok,
            },
    {
        match context.tenant_id() {
            None => Ok(()),
            Some(t) => {
                let a = concat("Single-tenant operation but context has tenant '", t.as_str());
                Err(concat(a.as_str(), "'"))
            },
        }
    }

    /// Succeeds when the request has a tenant.
    fn require_tenant_context(&self, context: &RequestContext) -> (r: Result<(), String>)
        ensures
            context.tenant_context is Some ==> r is Ok,
            context.tenant_context is None ==> (r matches Err(m) && m@ == "Multi-tenant operation requires tenant context"@),
    {
        match &context.tenant_context {
            Some(_) => Ok(()),
            None => Err("Multi-tenant operation requires tenant context".to_string()),
        }
    }
}

impl<T> TenantValidator for T {}

} // verus!
