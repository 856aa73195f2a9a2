//! Resolution of credentials to tenants.

use vstd::prelude::*;
use crate::collections::StrMap;
use crate::resource::TenantContext;
use crate::text::{owned, str_eq};

verus! {

/// Resolution of credentials to tenant contexts.
pub trait TenantResolver {
    /// The error of a failed resolution.
    type Error;

    /// Whether a credential resolves to a tenant.
    spec fn resolves(&self, credential: Seq<char>) -> bool;

    /// The tenant context of a credential; it succeeds exactly for the
    /// credentials that resolve.
    fn resolve_tenant(&self, credential: &str) -> (r: Result<TenantContext, Self::Error>)
        ensures
            r is Ok <==> self.resolves(credential@),
    ;

    /// Whether a tenant with this id is known.
    fn validate_tenant(&self, tenant_id: &str) -> Result<bool, Self::Error>;

    /// The known tenant ids (none unless the resolver lists them).
    fn list_tenants(&self) -> (r: Result<Vec<String>, Self::Error>)
        default_ensures
            r matches Ok(v) && v@.len() == 0,
    {
        Ok(Vec::new())
    }

    /// Whether the credential resolves to a tenant.
    fn is_valid_credential(&self, credential: &str) -> (r: Result<bool, Self::Error>)
        default_ensures
            r == Ok::<bool, Self::Error>(self.resolves(credential@)),
    {
        match self.resolve_tenant(credential) {
            Ok(_) => Ok(true),
            Err(_) => Ok(false),
        }
    }
}

/// Errors of the static resolver.
#[derive(Debug, Clone)]
pub enum StaticResolverError {
    InvalidCredentials { credential: String },
    TenantNotFound { tenant_id: String },
}

/// A resolver over a fixed table of credentials.
#[derive(Debug, Clone)]
pub struct StaticTenantResolver {
    tenants: StrMap<TenantContext>,
}

/// The tenant ids of the contexts stored under a sequence of credentials.
pub open spec fn tenant_ids_of(m: Map<Seq<char>, TenantContext>, keys: Seq<Seq<char>>) -> Seq<Seq<char>> {
    Seq::new(keys.len(), |i: int| m[keys[i]].tenant_id@)
}

impl StaticTenantResolver {
    /// The tenant contexts by credential.
    pub closed spec fn table(&self) -> Map<Seq<char>, TenantContext> {
        self.tenants@
    }

    /// The credentials in the order they were first added.
    pub closed spec fn credential_seq(&self) -> Seq<Seq<char>> {
        self.tenants.key_seq()
    }

    /// Credentials are listed once each, and exactly the stored ones are listed.
    pub proof fn lemma_credentials(&self)
        ensures
            forall|i: int| 0 <= i < self.credential_seq().len() ==> self.table().contains_key(#[trigger] self.credential_seq()[i]),
            forall|k: Seq<char>| #[trigger] self.table().contains_key(k) ==> self.credential_seq().contains(k),
    {
        self.tenants.lemma_keys();
    }

    /// An empty resolver.
    pub fn new() -> (r: StaticTenantResolver)
        ensures
            r.table() == Map::<Seq<char>, TenantContext>::empty(),
            r.credential_seq() == Seq::<Seq<char>>::empty(),
    {
        StaticTenantResolver { tenants: StrMap::new() }
    }

    /// Registers `tenant_context` under `credential`, replacing any previous one.
    pub fn add_tenant(&mut self, credential: &str, tenant_context: TenantContext)
        ensures
            final(self).table() == old(self).table().insert(credential@, tenant_context),
    {
        let _ = self.tenants.insert(owned(credential), tenant_context);
    }

    /// Unregisters `credential`, returning its tenant context.
    pub fn remove_tenant(&mut self, credential: &str) -> (r: Option<TenantContext>)
        ensures
            final(self).table() == old(self).table().remove(credential@),
            match r {
                Some(t) => old(self).table().contains_key(credential@) && old(self).table()[credential@] == t,
                None => !old(self).table().contains_key(credential@),
            },
    {
        self.tenants.remove(credential)
    }

    /// The number of registered credentials.
    pub fn tenant_count(&self) -> (r: usize)
        ensures
            r == self.table().len(),
    {
        self.tenants.len()
    }

    /// Unregisters every credential.
    pub fn clear(&mut self)
        ensures
            final(self).table() == Map::<Seq<char>, TenantContext>::empty(),
    {
        self.tenants.clear();
    }

    /// The registered credentials, in the order they were first added.
    pub fn get_all_credentials(&self) -> (r: Vec<String>)
        ensures
            r@.len() == self.credential_seq().len(),
            forall|i: int| 0 <= i < r@.len() ==> r@[i]@ == self.credential_seq()[i],
    {
        self.tenants.keys()
    }
}

impl TenantResolver for StaticTenantResolver {
    type Error = StaticResolverError;

    /// A credential resolves when it is registered.
    open spec fn resolves(&self, credential: Seq<char>) -> bool {
        self.table().contains_key(credential)
    }

    /// The tenant context registered under `credential`.
    fn resolve_tenant(&self, credential: &str) -> (r: Result<TenantContext, StaticResolverError>)
        ensures
            match r {
                Ok(t) => self.table().contains_key(credential@) && t.tenant_id == self.table()[credential@].tenant_id
                    && t.client_id == self.table()[credential@].client_id && t.permissions
                    == self.table()[credential@].permissions && t.isolation_level
                    == self.table()[credential@].isolation_level,
                Err(e) => !self.table().contains_key(credential@)
                    && (e matches StaticResolverError::InvalidCredentials { credential: c } && c@ == credential@),
            },
    {
        match self.tenants.get(credential) {
            Some(t) => Ok(t.copy()),
            None => Err(StaticResolverError::InvalidCredentials { credential: owned(credential) }),
        }
    }

    /// Whether some registered credential resolves to `tenant_id`.
    fn validate_tenant(&self, tenant_id: &str) -> (r: Result<bool, StaticResolverError>)
        ensures
            r == Ok::<bool, StaticResolverError>(exists|k: Seq<char>| #[trigger] self.table().contains_key(k) && self.table()[k].tenant_id@ == tenant_id@),
    {
        let n = self.tenants.len();
        proof {
            self.tenants.lemma_keys();
        }
        let mut i: usize = 0;
        while i < n
            invariant
                n == self.tenants.key_seq().len(),
                i <= n,
                forall|j: int| 0 <= j < i ==> self.tenants@[#[trigger] self.tenants.key_seq()[j]].tenant_id@ != tenant_id@,
            decreases n - i,
        {
            if str_eq(self.tenants.value_at(i).tenant_id.as_str(), tenant_id) {
                proof {
                    self.tenants.lemma_keys();
                    assert(self.table().contains_key(self.tenants.key_seq()[i as int]));
                }
                return Ok(true);
            }
            i = i + 1;
        }
        proof {
            assert forall|k: Seq<char>| #[trigger] self.table().contains_key(k) implies self.table()[k].tenant_id@ != tenant_id@ by {
                self.tenants.lemma_keys();
                let j = choose|j: int| 0 <= j < self.tenants.key_seq().len() && self.tenants.key_seq()[j] == k;
                assert(self.tenants@[self.tenants.key_seq()[j]].tenant_id@ != tenant_id@);
            }
        }
        Ok(false)
    }

    /// The tenant ids of the registered credentials, in credential order.
    fn list_tenants(&self) -> (r: Result<Vec<String>, StaticResolverError>)
        ensures
            r matches Ok(v) && v@.len() == self.credential_seq().len() && forall|i: int|
                0 <= i < v@.len() ==> v@[i]@ == tenant_ids_of(self.table(), self.credential_seq())[i],
    {
        let n = self.tenants.len();
        let mut out: Vec<String> = Vec::new();
        let mut i: usize = 0;
        while i < n
            invariant
                n == self.tenants.key_seq().len(),
                i <= n,
                out@.len() == i,
                forall|j: int| 0 <= j < i ==> out@[j]@ == tenant_ids_of(self.table(), self.credential_seq())[j],
            decreases n - i,
        {
            out.push(self.tenants.value_at(i).tenant_id.clone());
            i = i + 1;
        }
        Ok(out)
    }

    /// Whether the credential is registered.
    fn is_valid_credential(&self, credential: &str) -> (r: Result<bool, StaticResolverError>)
        ensures
            r == Ok::<bool, StaticResolverError>(self.table().contains_key(credential@)),
    {
        match self.resolve_tenant(credential) {
            Ok(_) => Ok(true),
            Err(_) => Ok(false),
        }
    }
}

impl Default for StaticTenantResolver {
    fn default() -> (r: Self)
        ensures
            r.table() == Map::<Seq<char>, TenantContext>::empty(),
    {
        Self::new()
    }
}

/// Builder of a static resolver.
pub struct StaticTenantResolverBuilder {
    pub tenants: Vec<(String, TenantContext)>,
}

/// The table built from credential pairs, later pairs replacing earlier ones.
pub open spec fn table_of(pairs: Seq<(String, TenantContext)>) -> Map<Seq<char>, TenantContext>
    decreases pairs.len(),
{
    if pairs.len() == 0 {
        Map::empty()
    } else {
        table_of(pairs.drop_last()).insert(pairs.last().0@, pairs.last().1)
    }
}

impl StaticTenantResolverBuilder {
    /// A builder with no tenants.
    pub fn new() -> (r: StaticTenantResolverBuilder)
        ensures
            r.tenants@.len() == 0,
    {
        StaticTenantResolverBuilder { tenants: Vec::new() }
    }

    /// Adds a credential and its tenant context.
    pub fn with_tenant(self, credential: &str, tenant_context: TenantContext) -> (r: StaticTenantResolverBuilder)
        ensures
            r.tenants@.len() == self.tenants@.len() + 1,
            forall|i: int| 0 <= i < self.tenants@.len() ==> r.tenants@[i] == self.tenants@[i],
            r.tenants@.last().0@ == credential@,
            r.tenants@.last().1 == tenant_context,
    {
        let mut b = self;
        b.tenants.push((owned(credential), tenant_context));
        b
    }

    /// The resolver holding the added tenants; a credential added twice
    /// resolves to the later tenant.
    pub fn build(self) -> (r: StaticTenantResolver)
        ensures
            r.table() == table_of(self.tenants@),
    {
        let mut resolver = StaticTenantResolver::new();
        let ghost pairs = self.tenants@;
        let mut rest = self.tenants;
        let n = rest.len();
        let mut i: usize = 0;
        assert(pairs.take(0) =~= Seq::<(String, TenantContext)>::empty());
        while i < n
            invariant
                n == pairs.len(),
                i <= n,
                rest@ == pairs.skip(i as int),
                resolver.table() == table_of(pairs.take(i as int)),
            decreases n - i,
        {
            let (credential, tenant_context) = rest.remove(0);
            assert(pairs.take(i + 1).drop_last() =~= pairs.take(i as int));
            assert(rest@ =~= pairs.skip(i + 1));
            resolver.add_tenant(credential.as_str(), tenant_context);
            i = i + 1;
        }
        assert(pairs.take(n as int) =~= pairs);
        resolver
    }
}

impl Default for StaticTenantResolverBuilder {
    fn default() -> (r: Self)
        ensures
            r.tenants@.len() == 0,
    {
        Self::new()
    }
}

/// A credential resolves to the tenant context last added under it.
pub proof fn law_resolve_after_add(
    before: StaticTenantResolver,
    after: StaticTenantResolver,
    credential: Seq<char>,
    tenant_context: TenantContext,
)
    requires
        after.table() == before.table().insert(credential, tenant_context),
    ensures
        after.table().contains_key(credential),
        after.table()[credential] == tenant_context,
        forall|k: Seq<char>| k != credential ==> (#[trigger] after.table().contains_key(k) == before.table().contains_key(k)),
{
}

/// A removed credential no longer resolves; other credentials are unaffected.
pub proof fn law_resolve_after_remove(before: StaticTenantResolver, after: StaticTenantResolver, credential: Seq<char>)
    requires
        after.table() == before.table().remove(credential),
    ensures
        !after.table().contains_key(credential),
        forall|k: Seq<char>| k != credential && #[trigger] before.table().contains_key(k) ==> after.table().contains_key(k)
            && after.table()[k] == before.table()[k],
{
}

} // verus!
