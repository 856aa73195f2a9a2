//! Tenant handling shared by resource providers: the effective tenant of a
//! request, tenant-scoped keys, and the normalisation and validation of
//! tenant identifiers.

use vstd::prelude::*;
use crate::ids::is_uuid_v4_text;
use crate::ids::new_uuid_string;
use crate::providers::standard::{StandardResourceProvider, effective_tenant};
use crate::resource::{RequestContext, TenantContext};
use crate::text::{
    byte_len,
    char_is_alphanumeric,
    concat,
    is_alphanumeric,
    is_blank,
    is_blank_text,
    owned,
    str_eq,
    to_lowercase,
    trim,
    trim_seq,
    unicode_lowercase,
};

verus! {

/// Whether a character may stand in a tenant identifier.
pub open spec fn tenant_id_char(c: char) -> bool {
    char_is_alphanumeric(c) || c == '-' || c == '_'
}

/// A character with space replaced by a hyphen.
pub open spec fn hyphenate(c: char) -> char {
    if c == ' ' {
        '-'
    } else {
        c
    }
}

/// The normal form of a tenant identifier: trimmed, lower-cased, spaces
/// replaced by hyphens, and every other character that may not stand in an
/// identifier dropped.
pub open spec fn normalized_tenant_id(s: Seq<char>) -> Seq<char> {
    unicode_lowercase(trim_seq(s)).map_values(|c: char| hyphenate(c)).filter(|c: char| tenant_id_char(c))
}

/// Whether a tenant identifier is acceptable: not blank, at most 64 bytes,
/// made of identifier characters, and neither starting nor ending with a hyphen.
pub open spec fn valid_tenant_id(s: Seq<char>) -> bool {
    &&& !is_blank_text(s)
    &&& vstd::utf8::encode_utf8(s).len() <= 64
    &&& forall|i: int| 0 <= i < s.len() ==> tenant_id_char(#[trigger] s[i])
    &&& !(s.len() > 0 && s[0] == '-')
    &&& !(s.len() > 0 && s.last() == '-')
}

/// The message of an error in the request's tenant: prefixed with the tenant
/// unless it is the default tenant.
pub open spec fn tenant_message(tenant: Seq<char>, base: Seq<char>) -> Seq<char> {
    if tenant == "default"@ {
        base
    } else {
        "[Tenant: "@ + tenant + "] "@ + base
    }
}

/// Multi-tenant helpers for resource providers.
pub trait MultiTenantProvider {
    /// The tenant of the request, or `default`.
    fn effective_tenant_id(&self, context: &RequestContext) -> (r: String)
        ensures
            r@ == effective_tenant(*context),
    {
        match context.tenant_id() {
            Some(t) => t.clone(),
            None => owned("default"),
        }
    }

    /// The storage key of a resource in a tenant: `tenant:{tenant}:{type}:{id}`.
    fn tenant_scoped_key(&self, tenant_id: &str, resource_type: &str, resource_id: &str) -> (r: String)
        ensures
            r@ == "tenant:"@ + tenant_id@ + ":"@ + resource_type@ + ":"@ + resource_id@,
    {
        let a = concat("tenant:", tenant_id);
        let b = concat(a.as_str(), ":");
        let c = concat(b.as_str(), resource_type);
        let d = concat(c.as_str(), ":");
        concat(d.as_str(), resource_id)
    }

    /// The key prefix of a resource type in a tenant: `tenant:{tenant}:{type}:`.
    fn tenant_scoped_prefix(&self, tenant_id: &str, resource_type: &str) -> (r: String)
        ensures
            r@ == "tenant:"@ + tenant_id@ + ":"@ + resource_type@ + ":"@,
    {
        let a = concat("tenant:", tenant_id);
        let b = concat(a.as_str(), ":");
        let c = concat(b.as_str(), resource_type);
        concat(c.as_str(), ":")
    }

    /// Whether the context is acceptable: with `require_tenant`, it must have a tenant.
    fn is_valid_tenant_context(&self, context: &RequestContext, require_tenant: bool) -> (r: bool)
        ensures
            r == (!require_tenant || context.tenant_context is Some),
    {
        if require_tenant {
            context.tenant_id().is_some()
        } else {
            true
        }
    }

    /// The tenant of the request, if any.
    fn extract_tenant_context<'a>(&self, context: &'a RequestContext) -> (r: Option<&'a TenantContext>)
        ensures
            match r {
                Some(t) => context.tenant_context == Some(*t),
                None => context.tenant_context is None,
            },
    {
        context.tenant_context.as_ref()
    }

    /// A fresh resource identifier.
    fn generate_tenant_resource_id(&self, tenant_id: &str, resource_type: &str) -> (r: String)
        ensures
            is_uuid_v4_text(r@),
    {
        new_uuid_string()
    }

    /// Whether two requests run in the same tenant.
    fn same_tenant(&self, context1: &RequestContext, context2: &RequestContext) -> (r: bool)
        ensures
            r == (effective_tenant(*context1) == effective_tenant(*context2)),
    {
        let a = self.effective_tenant_id(context1);
        let b = self.effective_tenant_id(context2);
        str_eq(a.as_str(), b.as_str())
    }

    /// An error message naming the request's tenant, unless it is the default tenant.
    fn tenant_error_message(&self, context: &RequestContext, base_message: &str) -> (r: String)
        ensures
            r@ == tenant_message(effective_tenant(*context), base_message@),
    {
        let tenant_id = self.effective_tenant_id(context);
        if str_eq(tenant_id.as_str(), "default") {
            owned(base_message)
        } else {
            let a = concat("[Tenant: ", tenant_id.as_str());
            let b = concat(a.as_str(), "] ");
            concat(b.as_str(), base_message)
        }
    }

    /// Whether the request has no tenant.
    fn is_single_tenant_context(&self, context: &RequestContext) -> (r: bool)
        ensures
            r == (context.tenant_context is None),
    {
        context.tenant_id().is_none()
    }

    /// Whether the request has a tenant.
    fn is_multi_tenant_context(&self, context: &RequestContext) -> (r: bool)
        ensures
            r == (context.tenant_context is Some),
    {
        context.tenant_id().is_some()
    }

    /// The client of the request's tenant, if any.
    fn get_client_id<'a>(&self, context: &'a RequestContext) -> (r: Option<&'a str>)
        ensures
            match r {
                Some(c) => context.tenant_context matches Some(t) && c@ == t.client_id@,
                None => context.tenant_context is None,
            },
    {
        match &context.tenant_context {
            Some(tc) => Some(tc.client_id.as_str()),
            None => None,
        }
    }

    /// The normal form of a tenant identifier.
    fn normalize_tenant_id(&self, tenant_id: &str) -> (r: String)
        ensures
            r@ == normalized_tenant_id(tenant_id@),
    {
        let trimmed = trim(tenant_id);
        let lower = to_lowercase(trimmed.as_str());
        let ghost mapped = lower@.map_values(|c: char| hyphenate(c));
        let ghost keep = |c: char| tenant_id_char(c);
        let n = lower.unicode_len();
        let mut out = String::new();
        let mut i: usize = 0;
        assert(mapped.take(0).filter(keep) =~= Seq::<char>::empty());
        while i < n
            invariant
                n == lower@.len(),
                mapped == lower@.map_values(|c: char| hyphenate(c)),
                keep == (|c: char| tenant_id_char(c)),
                i <= n,
                out@ == mapped.take(i as int).filter(keep),
            decreases n - i,
        {
            let c0 = lower.get_char(i);
            let c = if c0 == ' ' {
                '-'
            } else {
                c0
            };
            assert(c == mapped[i as int]);
            assert(mapped.take(i + 1) =~= mapped.take(i as int).push(c));
            proof {
                mapped.take(i as int).lemma_filter_push(c, keep);
            }
            if is_alphanumeric(c) || c == '-' || c == '_' {
                let ghost before = out@;
                if c0 == ' ' {
                    proof {
                        reveal_strlit("-");
                    }
                    out.append("-");
                } else {
                    out.append(lower.as_str().substring_char(i, i + 1));
                }
                assert(out@ =~= before.push(c));
            }
            i = i + 1;
        }
        assert(mapped.take(n as int) =~= mapped);
        out
    }

    /// Whether a tenant identifier is acceptable.
    fn is_valid_tenant_id(&self, tenant_id: &str) -> (r: bool)
        ensures
            r == valid_tenant_id(tenant_id@),
    {
        if is_blank(tenant_id) {
            return false;
        }
        if byte_len(tenant_id) > 64 {
            return false;
        }
        let n = tenant_id.unicode_len();
        let mut i: usize = 0;
        while i < n
            invariant
                n == tenant_id@.len(),
                i <= n,
                forall|j: int| 0 <= j < i ==> tenant_id_char(#[trigger] tenant_id@[j]),
            decreases n - i,
        {
            let c = tenant_id.get_char(i);
            if !(is_alphanumeric(c) || c == '-' || c == '_') {
                assert(!tenant_id_char(tenant_id@[i as int]));
                return false;
            }
            i = i + 1;
        }
        if n > 0 && tenant_id.get_char(0) == '-' {
            return false;
        }
        if n > 0 && tenant_id.get_char(n - 1) == '-' {
            return false;
        }
        true
    }
}

impl MultiTenantProvider for StandardResourceProvider {}

} // verus!
