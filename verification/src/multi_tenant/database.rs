//! A multi-tenant resource provider over a database, with an in-memory
//! database that keeps every tenant's resources apart.
//!
//! The in-memory database holds resources by tenant, resource type and id,
//! each with its creation and modification time and a version, and keeps a
//! count of resources per tenant and type that creates raise and deletes
//! lower. It also holds a table of tenant configurations, one row per
//! tenant, that queries insert, update, delete, count and select.

use vstd::prelude::*;
use crate::ids::is_uuid_v4_text;
use crate::collections::{StrMap, add_capped, saturated};
use crate::ids::{new_uuid_string, now_rfc3339, rfc3339_instant};
use crate::json::{Json, JsonValue};
use crate::json_text::json_text;
use crate::multi_tenant::provider::mismatch_message;
use crate::resource::{EnhancedRequestContext, ListQuery, Resource, operation_refused_message, permits};
use crate::storage::KeyModel;
use crate::text::{
    concat, contains_seq, contains_str, copy_string, decimal, decimal_string, has_prefix, owned, starts_with, str_eq, trim,
    trim_seq,
};
use crate::json::json_i64;

verus! {

/// The text of a signed integer.
pub open spec fn signed_text(n: int) -> Seq<char> {
    if n < 0 {
        "-"@ + decimal((-n) as nat)
    } else {
        decimal(n as nat)
    }
}

/// A parameter of a database query.
pub trait DatabaseParameter {
    /// The parameter's text.
    fn as_string(&self) -> String;

    /// The parameter's type name.
    fn parameter_type(&self) -> &'static str;
}

impl DatabaseParameter for String {
    fn as_string(&self) -> (r: String)
        ensures
            r@ == self@,
    {
        self.clone()
    }

    fn parameter_type(&self) -> (r: &'static str)
        ensures
            r@ == "string"@,
    {
        "string"
    }
}

impl DatabaseParameter for &str {
    fn as_string(&self) -> (r: String)
        ensures
            r@ == (*self)@,
    {
        owned(*self)
    }

    fn parameter_type(&self) -> (r: &'static str)
        ensures
            r@ == "string"@,
    {
        "string"
    }
}

impl DatabaseParameter for i64 {
    fn as_string(&self) -> (r: String)
        ensures
            r@ == signed_text(*self as int),
    {
        if *self < 0 {
            let magnitude = (0i128 - (*self as i128)) as u64;
            concat("-", decimal_string(magnitude).as_str())
        } else {
            decimal_string(*self as u64)
        }
    }

    fn parameter_type(&self) -> (r: &'static str)
        ensures
            r@ == "integer"@,
    {
        "integer"
    }
}

/// The rows returned by a query and the number of rows it affected.
#[derive(Debug)]
pub struct DatabaseResult {
    pub rows: Vec<StrMap<JsonValue>>,
    pub affected_rows: usize,
}

impl DatabaseResult {
    /// A result with no rows.
    pub fn new() -> (r: DatabaseResult)
        ensures
            r.rows@.len() == 0,
            r.affected_rows == 0,
    {
        DatabaseResult { rows: Vec::new(), affected_rows: 0 }
    }

    /// A result with no rows that reports `n` affected rows.
    pub fn new_affected(n: usize) -> (r: DatabaseResult)
        ensures
            r.rows@.len() == 0,
            r.affected_rows == n,
    {
        DatabaseResult { rows: Vec::new(), affected_rows: n }
    }

    /// A result holding `rows`, each counted as affected.
    pub fn with_rows(rows: Vec<StrMap<JsonValue>>) -> (r: DatabaseResult)
        ensures
            r.rows == rows,
            r.affected_rows == rows@.len(),
    {
        let n = rows.len();
        DatabaseResult { rows, affected_rows: n }
    }

    /// Whether the result has no rows.
    pub fn is_empty(&self) -> (r: bool)
        ensures
            r == (self.rows@.len() == 0),
    {
        self.rows.len() == 0
    }

    /// The first row, if any.
    pub fn first_row(&self) -> (r: Option<&StrMap<JsonValue>>)
        ensures
            match r {
                Some(row) => self.rows@.len() > 0 && *row == self.rows@[0],
                None => self.rows@.len() == 0,
            },
    {
        if self.rows.len() == 0 {
            None
        } else {
            Some(&self.rows[0])
        }
    }
}

/// A transaction of a tenant.
#[derive(Debug)]
pub struct DatabaseTransaction {
    tenant_id: String,
    is_committed: bool,
}

impl DatabaseTransaction {
    /// The tenant of the transaction.
    pub closed spec fn tenant(&self) -> Seq<char> {
        self.tenant_id@
    }

    /// Whether the transaction was committed.
    pub closed spec fn committed(&self) -> bool {
        self.is_committed
    }

    /// A new, uncommitted transaction of a tenant.
    pub fn new(tenant_id: String) -> (r: DatabaseTransaction)
        ensures
            r.tenant() == tenant_id@,
            !r.committed(),
    {
        DatabaseTransaction { tenant_id, is_committed: false }
    }

    /// Commits the transaction.
    pub fn commit(self) -> (r: Result<(), DatabaseError>)
        ensures
            r is Ok,
    {
        let mut t = self;
        t.is_committed = true;
        Ok(())
    }

    /// Rolls the transaction back.
    pub fn rollback(self) -> (r: Result<(), DatabaseError>)
        ensures
            r is Ok,
    {
        Ok(())
    }
}

/// Errors of database operations.
#[derive(Debug)]
pub enum DatabaseError {
    ConnectionFailed { message: String },
    QueryFailed { message: String },
    IsolationViolation { message: String },
    ResourceNotFound { resource_type: String, id: String, tenant_id: String },
    TenantValidation { message: String },
    TransactionFailed { message: String },
    SchemaValidation { message: String },
}

impl DatabaseError {
    /// The human-readable text of this error.
    pub fn message(&self) -> (r: String)
        ensures
            r@ == database_error_text(*self),
    {
        match self {
            DatabaseError::ConnectionFailed { message } => concat("Database connection failed: ", message.as_str()),
            DatabaseError::QueryFailed { message } => concat("Query execution failed: ", message.as_str()),
            DatabaseError::IsolationViolation { message } => concat("Tenant isolation violation: ", message.as_str()),
            DatabaseError::ResourceNotFound { resource_type, id, tenant_id } => {
                let a = concat("Resource not found: ", resource_type.as_str());
                let b = concat(a.as_str(), "/");
                let c = concat(b.as_str(), id.as_str());
                let d = concat(c.as_str(), " in tenant ");
                concat(d.as_str(), tenant_id.as_str())
            },
            DatabaseError::TenantValidation { message } => concat("Tenant validation failed: ", message.as_str()),
            DatabaseError::TransactionFailed { message } => concat("Transaction failed: ", message.as_str()),
            DatabaseError::SchemaValidation { message } => concat("Schema validation failed: ", message.as_str()),
        }
    }
}

/// The human-readable text of a database error.
pub open spec fn database_error_text(e: DatabaseError) -> Seq<char> {
    match e {
        DatabaseError::ConnectionFailed { message } => "Database connection failed: "@ + message@,
        DatabaseError::QueryFailed { message } => "Query execution failed: "@ + message@,
        DatabaseError::IsolationViolation { message } => "Tenant isolation violation: "@ + message@,
        DatabaseError::ResourceNotFound { resource_type, id, tenant_id } => "Resource not found: "@ + resource_type@
            + "/"@ + id@ + " in tenant "@ + tenant_id@,
        DatabaseError::TenantValidation { message } => "Tenant validation failed: "@ + message@,
        DatabaseError::TransactionFailed { message } => "Transaction failed: "@ + message@,
        DatabaseError::SchemaValidation { message } => "Schema validation failed: "@ + message@,
    }
}

/// A stored resource with its times and version.
#[derive(Debug)]
pub struct DbRecord {
    pub resource: Resource,
    pub created_at: String,
    pub updated_at: String,
    pub version: u64,
}

/// Mathematical model of a stored resource.
pub struct RecordModel {
    pub resource_type: Seq<char>,
    pub data: Json,
    pub created_at: Seq<char>,
    pub updated_at: Seq<char>,
    pub version: u64,
}

impl DbRecord {
    /// The model of this record.
    pub open spec fn view(&self) -> RecordModel {
        RecordModel {
            resource_type: self.resource.resource_type@,
            data: self.resource.data@,
            created_at: self.created_at@,
            updated_at: self.updated_at@,
            version: self.version,
        }
    }
}

/// An in-memory database of resources, keyed by tenant, type and id.
#[derive(Debug)]
pub struct InMemoryDatabase {
    data: StrMap<StrMap<StrMap<DbRecord>>>,
    counts: StrMap<StrMap<usize>>,
    configurations: StrMap<ConfigRecord>,
}

impl Default for InMemoryDatabase {
    fn default() -> (r: InMemoryDatabase)
        ensures
            r.records() == Map::<KeyModel, RecordModel>::empty(),
            r.tenant_keys() == Seq::<Seq<char>>::empty(),
            forall|t: Seq<char>, rt: Seq<char>| #[trigger] r.count_of(t, rt) == 0,
    {
        InMemoryDatabase::new()
    }
}

impl InMemoryDatabase {
    spec fn lookup(self, k: KeyModel) -> Option<RecordModel> {
        let t = self.data@;
        if t.contains_key(k.0) && t[k.0]@.contains_key(k.1) && t[k.0]@[k.1]@.contains_key(k.2) {
            Some(t[k.0]@[k.1]@[k.2]@)
        } else {
            None
        }
    }

    /// The stored resources by key.
    pub closed spec fn records(&self) -> Map<KeyModel, RecordModel> {
        Map::new(|k: KeyModel| self.lookup(k) is Some, |k: KeyModel| self.lookup(k)->0)
    }

    /// The rows of the configurations table, by tenant.
    pub closed spec fn configurations(&self) -> Map<Seq<char>, ConfigRecordModel> {
        self.configurations@.map_values(|c: ConfigRecord| c@)
    }

    /// The tenants the database has held resources for, in order.
    pub closed spec fn tenant_keys(&self) -> Seq<Seq<char>> {
        self.data.key_seq()
    }

    /// The ids of a tenant's resources of a type, in order.
    pub closed spec fn ids(&self, tenant: Seq<char>, resource_type: Seq<char>) -> Seq<Seq<char>> {
        let t = self.data@;
        if t.contains_key(tenant) && t[tenant]@.contains_key(resource_type) {
            t[tenant]@[resource_type].key_seq()
        } else {
            Seq::empty()
        }
    }

    /// The resource types held for a tenant, in order.
    pub closed spec fn type_keys(&self, tenant: Seq<char>) -> Seq<Seq<char>> {
        if self.data@.contains_key(tenant) {
            self.data@[tenant].key_seq()
        } else {
            Seq::empty()
        }
    }

    /// The recorded count of a tenant's resources of a type.
    pub closed spec fn count_of(&self, tenant: Seq<char>, resource_type: Seq<char>) -> nat {
        let c = self.counts@;
        if c.contains_key(tenant) && c[tenant]@.contains_key(resource_type) {
            c[tenant]@[resource_type] as nat
        } else {
            0
        }
    }

    /// The listing of a tenant and type holds distinct stored ids, and
    /// every stored id of the tenant and type.
    pub proof fn lemma_ids(&self, tenant: Seq<char>, resource_type: Seq<char>)
        ensures
            forall|i: int|
                0 <= i < self.ids(tenant, resource_type).len() ==> self.records().contains_key(
                    (tenant, resource_type, #[trigger] self.ids(tenant, resource_type)[i]),
                ),
            forall|id: Seq<char>|
                #[trigger] self.records().contains_key((tenant, resource_type, id)) ==> self.ids(
                    tenant,
                    resource_type,
                ).contains(id),
    {
        let t = self.data@;
        if t.contains_key(tenant) && t[tenant]@.contains_key(resource_type) {
            let m = t[tenant]@[resource_type];
            m.lemma_keys();
            assert forall|i: int|
                0 <= i < self.ids(tenant, resource_type).len() implies self.records().contains_key(
                (tenant, resource_type, #[trigger] self.ids(tenant, resource_type)[i]),
            ) by {
                assert(self.lookup((tenant, resource_type, m.key_seq()[i])) is Some);
            }
            assert forall|id: Seq<char>| #[trigger]
                self.records().contains_key((tenant, resource_type, id)) implies self.ids(
                tenant,
                resource_type,
            ).contains(id) by {
                assert(self.lookup((tenant, resource_type, id)) is Some);
                assert(m@.contains_key(id));
            }
        } else {
            assert forall|id: Seq<char>| #[trigger]
                self.records().contains_key((tenant, resource_type, id)) implies self.ids(
                tenant,
                resource_type,
            ).contains(id) by {
                assert(self.lookup((tenant, resource_type, id)) is Some);
            }
        }
    }

    /// An empty database.
    pub fn new() -> (r: InMemoryDatabase)
        ensures
            r.records() == Map::<KeyModel, RecordModel>::empty(),
            r.tenant_keys() == Seq::<Seq<char>>::empty(),
            forall|t: Seq<char>, rt: Seq<char>| #[trigger] r.ids(t, rt) == Seq::<Seq<char>>::empty(),
            forall|t: Seq<char>, rt: Seq<char>| #[trigger] r.count_of(t, rt) == 0,
            r.configurations() == Map::<Seq<char>, ConfigRecordModel>::empty(),
    {
        let r = InMemoryDatabase { data: StrMap::new(), counts: StrMap::new(), configurations: StrMap::new() };
        assert(r.records() =~= Map::<KeyModel, RecordModel>::empty());
        assert(r.configurations() =~= Map::<Seq<char>, ConfigRecordModel>::empty());
        r
    }

    /// The number of tenants the database has held resources for.
    pub fn tenant_count(&self) -> (r: usize)
        ensures
            r == self.tenant_keys().len(),
    {
        self.data.len()
    }

    /// The recorded count of a tenant's resources of a type.
    pub fn get_resource_count(&self, tenant_id: &str, resource_type: &str) -> (r: usize)
        ensures
            r == self.count_of(tenant_id@, resource_type@),
    {
        match self.counts.get(tenant_id) {
            Some(types) => match types.get(resource_type) {
                Some(c) => *c,
                None => 0,
            },
            None => 0,
        }
    }

    /// Removes every resource and count.
    pub fn clear(&mut self)
        ensures
            final(self).records() == Map::<KeyModel, RecordModel>::empty(),
            final(self).tenant_keys() == Seq::<Seq<char>>::empty(),
            forall|t: Seq<char>, rt: Seq<char>| #[trigger] final(self).ids(t, rt) == Seq::<Seq<char>>::empty(),
            forall|t: Seq<char>, rt: Seq<char>| #[trigger] final(self).count_of(t, rt) == 0,
    {
        self.data.clear();
        self.counts.clear();
        assert(self.records() =~= Map::<KeyModel, RecordModel>::empty());
    }

    /// The tenants the database has held resources for, in order.
    pub fn list_tenants(&self) -> (r: Vec<String>)
        ensures
            r@.len() == self.tenant_keys().len(),
            forall|i: int| 0 <= i < r@.len() ==> (#[trigger] r@[i])@ == self.tenant_keys()[i],
    {
        self.data.keys()
    }

    /// The record stored under the key, if any.
    pub fn get(&self, tenant: &str, resource_type: &str, id: &str) -> (r: Option<&DbRecord>)
        ensures
            match r {
                Some(rec) => self.records().contains_key((tenant@, resource_type@, id@)) && self.records()[(
                    tenant@,
                    resource_type@,
                    id@,
                )] == rec@,
                None => !self.records().contains_key((tenant@, resource_type@, id@)),
            },
    {
        match self.data.get(tenant) {
            Some(types) => match types.get(resource_type) {
                Some(ids) => ids.get(id),
                None => None,
            },
            None => None,
        }
    }

    /// Stores a record under the key, replacing what was there.
    pub fn put(&mut self, tenant: &str, resource_type: &str, id: &str, record: DbRecord)
        ensures
            final(self).records() == old(self).records().insert((tenant@, resource_type@, id@), record@),
            forall|t: Seq<char>, rt: Seq<char>|
                (t, rt) != (tenant@, resource_type@) ==> #[trigger] final(self).ids(t, rt) == old(self).ids(t, rt),
            old(self).ids(tenant@, resource_type@).contains(id@) ==> final(self).ids(tenant@, resource_type@)
                == old(self).ids(tenant@, resource_type@),
            !old(self).ids(tenant@, resource_type@).contains(id@) ==> final(self).ids(tenant@, resource_type@)
                == old(self).ids(tenant@, resource_type@).push(id@),
            forall|t: Seq<char>, rt: Seq<char>| #[trigger] final(self).count_of(t, rt) == old(self).count_of(t, rt),
    {
        proof {
            old(self).lemma_ids(tenant@, resource_type@);
        }
        let ghost t0 = self.data@;
        let mut types = match self.data.remove(tenant) {
            Some(m) => m,
            None => StrMap::new(),
        };
        let mut ids = match types.remove(resource_type) {
            Some(m) => m,
            None => StrMap::new(),
        };
        let ghost rv = record@;
        ids.insert(owned(id), record);
        types.insert(owned(resource_type), ids);
        self.data.insert(owned(tenant), types);
        proof {
            let k = (tenant@, resource_type@, id@);
            assert forall|q: KeyModel| #![auto]
                self.lookup(q) == (if q == k {
                    Some(rv)
                } else {
                    old(self).lookup(q)
                }) by {}
            assert(self.records() =~= old(self).records().insert(k, rv));
            if t0.contains_key(tenant@) && t0[tenant@]@.contains_key(resource_type@) {
                t0[tenant@]@[resource_type@].lemma_keys();
            }
        }
    }

    /// Removes the record stored under the key; returns whether one was there.
    pub fn remove(&mut self, tenant: &str, resource_type: &str, id: &str) -> (r: bool)
        ensures
            r == old(self).records().contains_key((tenant@, resource_type@, id@)),
            final(self).records() == old(self).records().remove((tenant@, resource_type@, id@)),
            forall|t: Seq<char>, rt: Seq<char>| #[trigger] final(self).count_of(t, rt) == old(self).count_of(t, rt),
    {
        let mut types = match self.data.remove(tenant) {
            Some(m) => m,
            None => {
                proof {
                    assert(self.records() =~= old(self).records().remove((tenant@, resource_type@, id@)));
                }
                return false;
            },
        };
        let mut ids = match types.remove(resource_type) {
            Some(m) => m,
            None => {
                self.data.insert(owned(tenant), types);
                proof {
                    assert forall|q: KeyModel| #![auto] self.lookup(q) == old(self).lookup(q) by {}
                    assert(self.records() =~= old(self).records().remove((tenant@, resource_type@, id@)));
                }
                return false;
            },
        };
        let removed = ids.remove(id);
        types.insert(owned(resource_type), ids);
        self.data.insert(owned(tenant), types);
        proof {
            let k = (tenant@, resource_type@, id@);
            assert forall|q: KeyModel| #![auto]
                self.lookup(q) == (if q == k {
                    None
                } else {
                    old(self).lookup(q)
                }) by {}
            assert(self.records() =~= old(self).records().remove(k));
        }
        removed.is_some()
    }

    /// Raises (by one, up to the largest count) or lowers (by one, down to
    /// zero) the count of a tenant's resources of a type.
    pub fn update_count(&mut self, tenant_id: &str, resource_type: &str, increment: bool)
        ensures
            final(self).records() == old(self).records(),
            forall|t: Seq<char>, rt: Seq<char>| #[trigger] final(self).ids(t, rt) == old(self).ids(t, rt),
            final(self).tenant_keys() == old(self).tenant_keys(),
            forall|t: Seq<char>, rt: Seq<char>|
                (t, rt) != (tenant_id@, resource_type@) ==> #[trigger] final(self).count_of(t, rt) == old(
                    self,
                ).count_of(t, rt),
            final(self).count_of(tenant_id@, resource_type@) == if increment {
                if old(self).count_of(tenant_id@, resource_type@) < usize::MAX {
                    old(self).count_of(tenant_id@, resource_type@) + 1
                } else {
                    old(self).count_of(tenant_id@, resource_type@)
                }
            } else {
                if old(self).count_of(tenant_id@, resource_type@) > 0 {
                    (old(self).count_of(tenant_id@, resource_type@) - 1) as nat
                } else {
                    0
                }
            },
    {
        let current = self.get_resource_count(tenant_id, resource_type);
        let next = if increment {
            if current < usize::MAX {
                current + 1
            } else {
                current
            }
        } else {
            if current > 0 {
                current - 1
            } else {
                0
            }
        };
        let mut types = match self.counts.remove(tenant_id) {
            Some(m) => m,
            None => StrMap::new(),
        };
        types.insert(owned(resource_type), next);
        self.counts.insert(owned(tenant_id), types);
    }

    /// Whether the database's schema is usable; it always is.
    pub fn validate_schema(&self) -> (r: Result<bool, DatabaseError>)
        ensures
            r matches Ok(b) && b,
    {
        Ok(true)
    }

    /// Begins a transaction of a tenant.
    pub fn begin_transaction(&self, tenant_id: &str) -> (r: Result<DatabaseTransaction, DatabaseError>)
        ensures
            r matches Ok(t) && t.tenant() == tenant_id@ && !t.committed(),
    {
        Ok(DatabaseTransaction::new(owned(tenant_id)))
    }

    /// The resources of a tenant of a type, in order.
    pub fn resources_of(&self, tenant_id: &str, resource_type: &str) -> (r: Vec<Resource>)
        ensures
            r@.len() == self.ids(tenant_id@, resource_type@).len(),
            forall|i: int|
                0 <= i < r@.len() ==> (#[trigger] r@[i]).resource_type@ == self.records()[(
                    tenant_id@,
                    resource_type@,
                    self.ids(tenant_id@, resource_type@)[i],
                )].resource_type && r@[i].data@ == self.records()[(
                    tenant_id@,
                    resource_type@,
                    self.ids(tenant_id@, resource_type@)[i],
                )].data,
    {
        let mut out: Vec<Resource> = Vec::new();
        match self.data.get(tenant_id) {
            Some(types) => match types.get(resource_type) {
                Some(ids) => {
                    let n = ids.len();
                    let mut i: usize = 0;
                    while i < n
                        invariant
                            self.data@.contains_key(tenant_id@),
                            *types == self.data@[tenant_id@],
                            types@.contains_key(resource_type@),
                            *ids == types@[resource_type@],
                            n == ids.key_seq().len(),
                            i <= n,
                            out@.len() == i,
                            forall|j: int|
                                0 <= j < i ==> (#[trigger] out@[j]).resource_type@ == ids@[ids.key_seq()[j]]@.resource_type
                                    && out@[j].data@ == ids@[ids.key_seq()[j]]@.data,
                        decreases n - i,
                    {
                        let rec = ids.value_at(i);
                        out.push(Resource::new(rec.resource.resource_type.clone(), rec.resource.data.deep_clone()));
                        i = i + 1;
                    }
                    proof {
                        ids.lemma_keys();
                        assert forall|j: int| 0 <= j < out@.len() implies (#[trigger] out@[j]).resource_type@
                            == self.records()[(
                            tenant_id@,
                            resource_type@,
                            self.ids(tenant_id@, resource_type@)[j],
                        )].resource_type by {
                            assert(self.lookup((tenant_id@, resource_type@, ids.key_seq()[j])) is Some);
                        }
                    }
                },
                None => {},
            },
            None => {},
        }
        out
    }
}

/// Counts of resources across tenants.
#[derive(Debug)]
pub struct DatabaseStats {
    pub tenant_count: usize,
    pub total_resources: usize,
    pub resource_counts: StrMap<usize>,
}

/// A resource provider over an in-memory database, serving requests of
/// tenants on their own resources.
#[derive(Debug)]
pub struct DatabaseResourceProvider {
    database: InMemoryDatabase,
    schema_validated: bool,
}

/// Why a request may not act in a tenant, if it may not: the request's
/// tenant differs, or the tenant may not perform the operation.
pub open spec fn tenant_problem(tenant_id: Seq<char>, context: EnhancedRequestContext, operation: Seq<char>) -> Option<Seq<char>> {
    if context.tenant_context.tenant_id@ != tenant_id {
        Some(mismatch_message(context.tenant_context.tenant_id@, tenant_id))
    } else if !permits(context.tenant_context.permissions, operation) {
        Some(operation_refused_message(operation, context.tenant_context.tenant_id@))
    } else {
        None
    }
}

/// The message when a tenant's count of a resource type reached its limit.
pub open spec fn limit_message(resource_type: Seq<char>, count: nat, max: nat) -> Seq<char> {
    resource_type + " limit exceeded: "@ + decimal(count) + "/"@ + decimal(max)
}

/// Why a tenant may not add a resource of a type, if it may not.
pub open spec fn limit_problem(resource_type: Seq<char>, count: nat, context: EnhancedRequestContext) -> Option<Seq<char>> {
    let limit = if resource_type == "User"@ {
        context.tenant_context.permissions.max_users
    } else if resource_type == "Group"@ {
        context.tenant_context.permissions.max_groups
    } else {
        None
    };
    match limit {
        Some(max) => if count >= max {
            Some(limit_message(resource_type, count, max as nat))
        } else {
            None
        },
        None => None,
    }
}

/// Whether `e` is the tenant-validation error with message `m`.
pub open spec fn validation_error(e: DatabaseError, m: Seq<char>) -> bool {
    e matches DatabaseError::TenantValidation { message } && message@ == m
}

/// Whether `e` is the query error with message `m`.
pub open spec fn query_error(e: DatabaseError, m: Seq<char>) -> bool {
    e matches DatabaseError::QueryFailed { message } && message@ == m
}

/// Whether `e` reports a missing resource.
pub open spec fn missing_error(e: DatabaseError, tenant_id: Seq<char>, resource_type: Seq<char>, id: Seq<char>) -> bool {
    e matches DatabaseError::ResourceNotFound { resource_type: t, id: i, tenant_id: n } && t@ == resource_type
        && i@ == id && n@ == tenant_id
}

/// The count of a tenant's resources of a type seen by a create: the
/// recorded count when the tenant may read it.
pub open spec fn seen_limit_problem(
    db: InMemoryDatabase,
    tenant_id: Seq<char>,
    resource_type: Seq<char>,
    context: EnhancedRequestContext,
) -> Option<Seq<char>> {
    if tenant_problem(tenant_id, context, "read"@) is None {
        limit_problem(resource_type, db.count_of(tenant_id, resource_type), context)
    } else {
        None
    }
}

/// The outcome of a create with a generated id and a timestamp.
pub open spec fn db_create_outcome(
    old_db: InMemoryDatabase,
    new_db: InMemoryDatabase,
    r: Result<Resource, DatabaseError>,
    tenant_id: Seq<char>,
    resource_type: Seq<char>,
    data: Json,
    context: EnhancedRequestContext,
    generated_id: Seq<char>,
    now: Seq<char>,
) -> bool {
    let unchanged = new_db == old_db;
    if tenant_problem(tenant_id, context, "create"@) is Some {
        r matches Err(e) && validation_error(e, tenant_problem(tenant_id, context, "create"@)->0) && unchanged
    } else if seen_limit_problem(old_db, tenant_id, resource_type, context) is Some {
        r matches Err(e) && validation_error(e, seen_limit_problem(old_db, tenant_id, resource_type, context)->0)
            && unchanged
    } else if data.get("id"@) is None && !(data is Object) {
        r matches Err(e) && query_error(e, "Resource data must be an object"@) && unchanged
    } else if data.get("id"@) is Some && data.get_str("id"@) is None {
        r matches Err(e) && query_error(e, "Resource ID must be a string"@) && unchanged
    } else {
        let id = if data.get("id"@) is None {
            generated_id
        } else {
            data.get_str("id"@)->0
        };
        let stored = if data.get("id"@) is None {
            data.set("id"@, Json::Str(generated_id))
        } else {
            data
        };
        let key = (tenant_id, resource_type, id);
        &&& r matches Ok(res) && res.resource_type@ == resource_type && res.data@ == stored
        &&& new_db.records() == old_db.records().insert(
            key,
            RecordModel { resource_type, data: stored, created_at: now, updated_at: now, version: 1 },
        )
        &&& forall|t: Seq<char>, rt: Seq<char>|
            (t, rt) != (tenant_id, resource_type) ==> #[trigger] new_db.ids(t, rt) == old_db.ids(t, rt)
        &&& new_db.ids(tenant_id, resource_type) == if old_db.ids(tenant_id, resource_type).contains(id) {
            old_db.ids(tenant_id, resource_type)
        } else {
            old_db.ids(tenant_id, resource_type).push(id)
        }
        &&& forall|t: Seq<char>, rt: Seq<char>|
            (t, rt) != (tenant_id, resource_type) ==> #[trigger] new_db.count_of(t, rt) == old_db.count_of(t, rt)
        &&& new_db.count_of(tenant_id, resource_type) == if old_db.count_of(tenant_id, resource_type) < usize::MAX {
            old_db.count_of(tenant_id, resource_type) + 1
        } else {
            old_db.count_of(tenant_id, resource_type)
        }
    }
}

impl DatabaseResourceProvider {
    /// The database the provider works on.
    pub closed spec fn db(&self) -> InMemoryDatabase {
        self.database
    }

    /// Whether the provider has checked the database's schema.
    pub closed spec fn schema_checked(&self) -> bool {
        self.schema_validated
    }

    /// A provider over `database`; its schema is checked first.
    pub fn new(database: InMemoryDatabase) -> (r: Result<DatabaseResourceProvider, DatabaseError>)
        ensures
            r matches Ok(p) && p.db() == database && p.schema_checked(),
    {
        let mut provider = DatabaseResourceProvider { database, schema_validated: false };
        match provider.ensure_schema() {
            Ok(()) => Ok(provider),
            Err(e) => Err(e),
        }
    }

    fn ensure_schema(&mut self) -> (r: Result<(), DatabaseError>)
        ensures
            r is Ok,
            final(self).db() == old(self).db(),
            final(self).schema_checked(),
    {
        if !self.schema_validated {
            match self.database.validate_schema() {
                Ok(_) => {},
                Err(e) => {
                    return Err(e);
                },
            }
            self.schema_validated = true;
        }
        Ok(())
    }

    /// A provider over an empty in-memory database.
    pub fn new_in_memory() -> (r: Result<DatabaseResourceProvider, DatabaseError>)
        ensures
            r matches Ok(p) && p.db().records() == Map::<KeyModel, RecordModel>::empty() && p.db().tenant_keys()
                == Seq::<Seq<char>>::empty() && (forall|t: Seq<char>, rt: Seq<char>| #[trigger] p.db().count_of(t, rt) == 0),
    {
        Self::new(InMemoryDatabase::new())
    }

    /// The database the provider works on.
    pub fn database(&self) -> (r: &InMemoryDatabase)
        ensures
            *r == self.db(),
    {
        &self.database
    }

    /// Fails unless the request's tenant is `tenant_id` and may perform `operation`.
    fn check_tenant(tenant_id: &str, context: &EnhancedRequestContext, operation: &str) -> (r: Result<(), DatabaseError>)
        ensures
            match tenant_problem(tenant_id@, *context, operation@) {
                Some(m) => r matches Err(e) && validation_error(e, m),
                None => r is Ok,
            },
    {
        let actual = context.tenant_id();
        if !str_eq(actual.as_str(), tenant_id) {
            let a = concat("Tenant mismatch: context has '", actual.as_str());
            let b = concat(a.as_str(), "', operation requested '");
            let c = concat(b.as_str(), tenant_id);
            return Err(DatabaseError::TenantValidation { message: concat(c.as_str(), "'") });
        }
        match context.validate_operation(operation) {
            Ok(()) => Ok(()),
            Err(m) => Err(DatabaseError::TenantValidation { message: m }),
        }
    }

    /// Fails when the tenant's limit for the resource type does not allow one more.
    fn check_limits(resource_type: &str, count: usize, context: &EnhancedRequestContext) -> (r: Result<(), DatabaseError>)
        ensures
            match limit_problem(resource_type@, count as nat, *context) {
                Some(m) => r matches Err(e) && validation_error(e, m),
                None => r is Ok,
            },
    {
        let limit = if str_eq(resource_type, "User") {
            context.tenant_context.permissions.max_users
        } else if str_eq(resource_type, "Group") {
            context.tenant_context.permissions.max_groups
        } else {
            None
        };
        match limit {
            Some(max) => if count >= max {
                let a = concat(resource_type, " limit exceeded: ");
                let b = concat(a.as_str(), decimal_string(count as u64).as_str());
                let c = concat(b.as_str(), "/");
                let m = concat(c.as_str(), decimal_string(max as u64).as_str());
                Err(DatabaseError::TenantValidation { message: m })
            } else {
                Ok(())
            },
            None => Ok(()),
        }
    }

    /// Creates a resource in a tenant; `generated_id` is its id when the
    /// data has none, and `now` its creation time.
    pub fn create_resource_with(
        &mut self,
        tenant_id: &str,
        resource_type: &str,
        data: JsonValue,
        context: &EnhancedRequestContext,
        generated_id: &str,
        now: &str,
    ) -> (r: Result<Resource, DatabaseError>)
        ensures
            db_create_outcome(old(self).db(), final(self).db(), r, tenant_id@, resource_type@, data@, *context, generated_id@, now@),
    {
        match Self::check_tenant(tenant_id, context, "create") {
            Ok(()) => {},
            Err(e) => {
                return Err(e);
            },
        }
        match self.get_resource_count(tenant_id, resource_type, context) {
            Ok(count) => match Self::check_limits(resource_type, count, context) {
                Ok(()) => {},
                Err(e) => {
                    return Err(e);
                },
            },
            Err(_) => {},
        }
        let mut data = data;
        let resource_id = if data.get("id").is_none() {
            if !data.is_object() {
                return Err(DatabaseError::QueryFailed { message: owned("Resource data must be an object") });
            }
            data.insert(owned("id"), JsonValue::text(generated_id));
            owned(generated_id)
        } else {
            match data.get_str("id") {
                Some(s) => s.clone(),
                None => {
                    return Err(DatabaseError::QueryFailed { message: owned("Resource ID must be a string") });
                },
            }
        };
        let resource = Resource::new(owned(resource_type), data);
        let stored = Resource::new(owned(resource_type), resource.data.deep_clone());
        let record = DbRecord { resource: stored, created_at: owned(now), updated_at: owned(now), version: 1 };
        self.database.put(tenant_id, resource_type, resource_id.as_str(), record);
        self.database.update_count(tenant_id, resource_type, true);
        Ok(resource)
    }

    /// Creates a resource in a tenant, generating an id when the data has
    /// none and recording the current time.
    pub fn create_resource(
        &mut self,
        tenant_id: &str,
        resource_type: &str,
        data: JsonValue,
        context: &EnhancedRequestContext,
    ) -> (r: Result<Resource, DatabaseError>)
        ensures
            exists|generated_id: Seq<char>, now: Seq<char>|
                is_uuid_v4_text(generated_id) && rfc3339_instant(now) is Some && #[trigger] db_create_outcome(
                    old(self).db(),
                    final(self).db(),
                    r,
                    tenant_id@,
                    resource_type@,
                    data@,
                    *context,
                    generated_id,
                    now,
                ),
    {
        let generated = new_uuid_string();
        let now = now_rfc3339();
        self.create_resource_with(tenant_id, resource_type, data, context, generated.as_str(), now.as_str())
    }

    /// The resource stored under the key, when the request may read in the tenant.
    pub fn get_resource(
        &self,
        tenant_id: &str,
        resource_type: &str,
        id: &str,
        context: &EnhancedRequestContext,
    ) -> (r: Result<Option<Resource>, DatabaseError>)
        ensures
            match tenant_problem(tenant_id@, *context, "read"@) {
                Some(m) => r matches Err(e) && validation_error(e, m),
                None => r matches Ok(o) && match o {
                    Some(res) => self.db().records().contains_key((tenant_id@, resource_type@, id@))
                        && res.resource_type@ == self.db().records()[(tenant_id@, resource_type@, id@)].resource_type
                        && res.data@ == self.db().records()[(tenant_id@, resource_type@, id@)].data,
                    None => !self.db().records().contains_key((tenant_id@, resource_type@, id@)),
                },
            },
    {
        match Self::check_tenant(tenant_id, context, "read") {
            Ok(()) => {},
            Err(e) => {
                return Err(e);
            },
        }
        match self.database.get(tenant_id, resource_type, id) {
            Some(rec) => Ok(Some(Resource::new(rec.resource.resource_type.clone(), rec.resource.data.deep_clone()))),
            None => Ok(None),
        }
    }

    /// Replaces a stored resource's data, recording `now` as its modification
    /// time and raising its version.
    pub fn update_resource_with(
        &mut self,
        tenant_id: &str,
        resource_type: &str,
        id: &str,
        data: JsonValue,
        context: &EnhancedRequestContext,
        now: &str,
    ) -> (r: Result<Resource, DatabaseError>)
        ensures
            ({
                let key = (tenant_id@, resource_type@, id@);
                let old_db = old(self).db();
                let new_db = final(self).db();
                if tenant_problem(tenant_id@, *context, "update"@) is Some {
                    r matches Err(e) && validation_error(e, tenant_problem(tenant_id@, *context, "update"@)->0)
                        && new_db == old_db
                } else if !old_db.records().contains_key(key) {
                    r matches Err(e) && missing_error(e, tenant_id@, resource_type@, id@) && new_db == old_db
                } else {
                    let prev = old_db.records()[key];
                    &&& r matches Ok(res) && res.resource_type@ == resource_type@ && res.data@ == data@
                    &&& new_db.records() == old_db.records().insert(
                        key,
                        RecordModel {
                            resource_type: resource_type@,
                            data: data@,
                            created_at: prev.created_at,
                            updated_at: now@,
                            version: if prev.version < u64::MAX { (prev.version + 1) as u64 } else { 0 },
                        },
                    )
                    &&& forall|t: Seq<char>, rt: Seq<char>| #[trigger] new_db.ids(t, rt) == old_db.ids(t, rt)
                    &&& forall|t: Seq<char>, rt: Seq<char>| #[trigger] new_db.count_of(t, rt) == old_db.count_of(t, rt)
                }
            }),
    {
        match Self::check_tenant(tenant_id, context, "update") {
            Ok(()) => {},
            Err(e) => {
                return Err(e);
            },
        }
        let (created_at, version) = match self.database.get(tenant_id, resource_type, id) {
            Some(rec) => (rec.created_at.clone(), rec.version),
            None => {
                return Err(DatabaseError::ResourceNotFound {
                    resource_type: owned(resource_type),
                    id: owned(id),
                    tenant_id: owned(tenant_id),
                });
            },
        };
        proof {
            self.database.lemma_ids(tenant_id@, resource_type@);
        }
        let next_version = if version < u64::MAX {
            version + 1
        } else {
            0
        };
        let resource = Resource::new(owned(resource_type), data);
        let stored = Resource::new(owned(resource_type), resource.data.deep_clone());
        let record = DbRecord { resource: stored, created_at, updated_at: owned(now), version: next_version };
        self.database.put(tenant_id, resource_type, id, record);
        proof {
            assert forall|t: Seq<char>, rt: Seq<char>| #[trigger] self.db().ids(t, rt) == old(self).db().ids(t, rt) by {}
        }
        Ok(resource)
    }

    /// Replaces a stored resource's data, recording the current time.
    pub fn update_resource(
        &mut self,
        tenant_id: &str,
        resource_type: &str,
        id: &str,
        data: JsonValue,
        context: &EnhancedRequestContext,
    ) -> (r: Result<Resource, DatabaseError>)
        ensures
            ({
                let key = (tenant_id@, resource_type@, id@);
                let old_db = old(self).db();
                let new_db = final(self).db();
                if tenant_problem(tenant_id@, *context, "update"@) is Some {
                    r matches Err(e) && validation_error(e, tenant_problem(tenant_id@, *context, "update"@)->0)
                        && new_db == old_db
                } else if !old_db.records().contains_key(key) {
                    r matches Err(e) && missing_error(e, tenant_id@, resource_type@, id@) && new_db == old_db
                } else {
                    let prev = old_db.records()[key];
                    &&& r matches Ok(res) && res.resource_type@ == resource_type@ && res.data@ == data@
                    &&& new_db.records().dom() == old_db.records().dom()
                    &&& new_db.records()[key].data == data@
                    &&& new_db.records()[key].created_at == prev.created_at
                    &&& new_db.records()[key].version == if prev.version < u64::MAX { (prev.version + 1) as u64 } else { 0 }
                    &&& forall|k: KeyModel| k != key && #[trigger] old_db.records().contains_key(k) ==> new_db.records()[k]
                        == old_db.records()[k]
                    &&& forall|t: Seq<char>, rt: Seq<char>| #[trigger] new_db.ids(t, rt) == old_db.ids(t, rt)
                    &&& forall|t: Seq<char>, rt: Seq<char>| #[trigger] new_db.count_of(t, rt) == old_db.count_of(t, rt)
                }
            }),
    {
        let now = now_rfc3339();
        self.update_resource_with(tenant_id, resource_type, id, data, context, now.as_str())
    }

    /// Deletes a stored resource and lowers the tenant's count of its type.
    pub fn delete_resource(
        &mut self,
        tenant_id: &str,
        resource_type: &str,
        id: &str,
        context: &EnhancedRequestContext,
    ) -> (r: Result<(), DatabaseError>)
        ensures
            ({
                let key = (tenant_id@, resource_type@, id@);
                let old_db = old(self).db();
                let new_db = final(self).db();
                if tenant_problem(tenant_id@, *context, "delete"@) is Some {
                    r matches Err(e) && validation_error(e, tenant_problem(tenant_id@, *context, "delete"@)->0)
                        && new_db == old_db
                } else if !old_db.records().contains_key(key) {
                    r matches Err(e) && missing_error(e, tenant_id@, resource_type@, id@) && new_db.records()
                        == old_db.records() && (forall|t: Seq<char>, rt: Seq<char>| #[trigger] new_db.count_of(t, rt)
                        == old_db.count_of(t, rt))
                } else {
                    &&& r is Ok
                    &&& new_db.records() == old_db.records().remove(key)
                    &&& forall|t: Seq<char>, rt: Seq<char>|
                        (t, rt) != (tenant_id@, resource_type@) ==> #[trigger] new_db.count_of(t, rt) == old_db.count_of(t, rt)
                    &&& new_db.count_of(tenant_id@, resource_type@) == if old_db.count_of(tenant_id@, resource_type@) > 0 {
                        (old_db.count_of(tenant_id@, resource_type@) - 1) as nat
                    } else {
                        0
                    }
                }
            }),
    {
        match Self::check_tenant(tenant_id, context, "delete") {
            Ok(()) => {},
            Err(e) => {
                return Err(e);
            },
        }
        if self.database.remove(tenant_id, resource_type, id) {
            self.database.update_count(tenant_id, resource_type, false);
            Ok(())
        } else {
            Err(DatabaseError::ResourceNotFound {
                resource_type: owned(resource_type),
                id: owned(id),
                tenant_id: owned(tenant_id),
            })
        }
    }

    /// The resources of a type in a tenant, in order; the query is not applied.
    pub fn list_resources(
        &self,
        tenant_id: &str,
        resource_type: &str,
        query: Option<&ListQuery>,
        context: &EnhancedRequestContext,
    ) -> (r: Result<Vec<Resource>, DatabaseError>)
        ensures
            match tenant_problem(tenant_id@, *context, "list"@) {
                Some(m) => r matches Err(e) && validation_error(e, m),
                None => r matches Ok(v) && v@.len() == self.db().ids(tenant_id@, resource_type@).len() && forall|i: int|
                    0 <= i < v@.len() ==> (#[trigger] v@[i]).resource_type@ == self.db().records()[(
                        tenant_id@,
                        resource_type@,
                        self.db().ids(tenant_id@, resource_type@)[i],
                    )].resource_type && v@[i].data@ == self.db().records()[(
                        tenant_id@,
                        resource_type@,
                        self.db().ids(tenant_id@, resource_type@)[i],
                    )].data,
            },
    {
        match Self::check_tenant(tenant_id, context, "list") {
            Ok(()) => {},
            Err(e) => {
                return Err(e);
            },
        }
        Ok(self.database.resources_of(tenant_id, resource_type))
    }

    /// The first resource of a type in a tenant, in order, whose document
    /// holds `value` under `attribute`.
    pub fn find_resource_by_attribute(
        &self,
        tenant_id: &str,
        resource_type: &str,
        attribute: &str,
        value: &JsonValue,
        context: &EnhancedRequestContext,
    ) -> (r: Result<Option<Resource>, DatabaseError>)
        ensures
            ({
                let ids = self.db().ids(tenant_id@, resource_type@);
                let recs = self.db().records();
                match tenant_problem(tenant_id@, *context, "read"@) {
                    Some(m) => r matches Err(e) && validation_error(e, m),
                    None => r matches Ok(o) && match o {
                        Some(res) => exists|i: int|
                            0 <= i < ids.len() && recs[(tenant_id@, resource_type@, ids[i])].data.get(attribute@) == Some(
                                value@,
                            ) && (forall|j: int|
                                0 <= j < i ==> #[trigger] recs[(tenant_id@, resource_type@, ids[j])].data.get(attribute@)
                                    != Some(value@)) && res.data@ == recs[(tenant_id@, resource_type@, ids[i])].data
                                && res.resource_type@ == recs[(tenant_id@, resource_type@, ids[i])].resource_type,
                        None => forall|j: int|
                            0 <= j < ids.len() ==> #[trigger] recs[(tenant_id@, resource_type@, ids[j])].data.get(attribute@)
                                != Some(value@),
                    },
                }
            }),
    {
        match Self::check_tenant(tenant_id, context, "read") {
            Ok(()) => {},
            Err(e) => {
                return Err(e);
            },
        }
        let all = self.database.resources_of(tenant_id, resource_type);
        let ghost ids = self.db().ids(tenant_id@, resource_type@);
        let mut i: usize = 0;
        while i < all.len()
            invariant
                tenant_problem(tenant_id@, *context, "read"@) is None,
                ids == self.db().ids(tenant_id@, resource_type@),
                all@.len() == ids.len(),
                forall|j: int|
                    0 <= j < all@.len() ==> (#[trigger] all@[j]).resource_type@ == self.db().records()[(
                        tenant_id@,
                        resource_type@,
                        ids[j],
                    )].resource_type && all@[j].data@ == self.db().records()[(tenant_id@, resource_type@, ids[j])].data,
                i <= all@.len(),
                forall|j: int|
                    0 <= j < i ==> #[trigger] self.db().records()[(tenant_id@, resource_type@, ids[j])].data.get(attribute@)
                        != Some(value@),
            decreases all@.len() - i,
        {
            let found = match all[i].get_attribute(attribute) {
                Some(v) => v.equals(value),
                None => false,
            };
            if found {
                let res = Resource::new(all[i].resource_type.clone(), all[i].data.deep_clone());
                let ghost recs = self.db().records();
                let ghost k = i as int;
                assert(0 <= k < ids.len() && recs[(tenant_id@, resource_type@, ids[k])].data.get(attribute@) == Some(value@)
                    && (forall|j: int|
                    0 <= j < k ==> #[trigger] recs[(tenant_id@, resource_type@, ids[j])].data.get(attribute@) != Some(value@))
                    && res.data@ == recs[(tenant_id@, resource_type@, ids[k])].data && res.resource_type@ == recs[(
                    tenant_id@,
                    resource_type@,
                    ids[k],
                )].resource_type);
                return Ok(Some(res));
            }
            i = i + 1;
        }
        Ok(None)
    }

    /// Whether a resource is stored under the key, when the request may read in the tenant.
    pub fn resource_exists(
        &self,
        tenant_id: &str,
        resource_type: &str,
        id: &str,
        context: &EnhancedRequestContext,
    ) -> (r: Result<bool, DatabaseError>)
        ensures
            match tenant_problem(tenant_id@, *context, "read"@) {
                Some(m) => r matches Err(e) && validation_error(e, m),
                None => r == Ok::<bool, DatabaseError>(self.db().records().contains_key((tenant_id@, resource_type@, id@))),
            },
    {
        match Self::check_tenant(tenant_id, context, "read") {
            Ok(()) => {},
            Err(e) => {
                return Err(e);
            },
        }
        Ok(self.database.get(tenant_id, resource_type, id).is_some())
    }

    /// The recorded count of a tenant's resources of a type, when the request
    /// may read in the tenant.
    pub fn get_resource_count(
        &self,
        tenant_id: &str,
        resource_type: &str,
        context: &EnhancedRequestContext,
    ) -> (r: Result<usize, DatabaseError>)
        ensures
            match tenant_problem(tenant_id@, *context, "read"@) {
                Some(m) => r matches Err(e) && validation_error(e, m),
                None => r == Ok::<usize, DatabaseError>(self.db().count_of(tenant_id@, resource_type@) as usize),
            },
    {
        match Self::check_tenant(tenant_id, context, "read") {
            Ok(()) => {},
            Err(e) => {
                return Err(e);
            },
        }
        Ok(self.database.get_resource_count(tenant_id, resource_type))
    }
}

/// The sum of the recorded counts of a resource type over tenants.
pub open spec fn type_total(db: InMemoryDatabase, tenants: Seq<Seq<char>>, resource_type: Seq<char>) -> nat
    decreases tenants.len(),
{
    if tenants.len() == 0 {
        0
    } else {
        type_total(db, tenants.drop_last(), resource_type) + db.count_of(tenants.last(), resource_type)
    }
}

impl DatabaseResourceProvider {
    /// The resource held by a row of the resources table: its type from the
    /// `resource_type` column (which must hold text) and its document from
    /// the `data` column (an empty object when the row has none).
    pub fn row_to_resource(row: &StrMap<JsonValue>) -> (r: Result<Resource, DatabaseError>)
        ensures
            match (if row@.contains_key("resource_type"@) { row@["resource_type"@]@ } else { Json::Null }) {
                Json::Str(t) => r matches Ok(res) && res.resource_type@ == t && res.data@ == if row@.contains_key(
                    "data"@,
                ) {
                    row@["data"@]@
                } else {
                    Json::Object(seq![])
                },
                _ => r matches Err(DatabaseError::QueryFailed { message }) && message@
                    == "Missing resource_type in database row"@,
            },
    {
        let resource_type = match row.get("resource_type") {
            Some(v) => match v.as_str() {
                Some(t) => t.clone(),
                None => {
                    return Err(DatabaseError::QueryFailed { message: "Missing resource_type in database row".to_string() });
                },
            },
            None => {
                return Err(DatabaseError::QueryFailed { message: "Missing resource_type in database row".to_string() });
            },
        };
        let data = match row.get("data") {
            Some(d) => d.deep_clone(),
            None => JsonValue::object(),
        };
        Ok(Resource::new(resource_type, data))
    }
}

impl DatabaseResourceProvider {
    /// Counts of the User and Group resources recorded for every tenant:
    /// the number of tenants, the total, and the total per type (each capped
    /// at the largest `usize`).
    pub fn get_stats(&self) -> (r: DatabaseStats)
        ensures
            ({
                let tenants = self.db().tenant_keys();
                let users = type_total(self.db(), tenants, "User"@);
                let groups = type_total(self.db(), tenants, "Group"@);
                &&& r.tenant_count == tenants.len()
                &&& r.total_resources == saturated(users + groups)
                &&& r.resource_counts@.dom() == if tenants.len() > 0 {
                    set!["User"@, "Group"@]
                } else {
                    Set::<Seq<char>>::empty()
                }
                &&& tenants.len() > 0 ==> r.resource_counts@["User"@] == saturated(users) && r.resource_counts@["Group"@]
                    == saturated(groups)
            }),
    {
        let tenant_count = self.database.tenant_count();
        let tenants = self.database.list_tenants();
        let ghost keys = self.db().tenant_keys();
        let mut users: usize = 0;
        let mut groups: usize = 0;
        let mut i: usize = 0;
        while i < tenants.len()
            invariant
                keys == self.db().tenant_keys(),
                tenants@.len() == keys.len(),
                forall|j: int| 0 <= j < tenants@.len() ==> (#[trigger] tenants@[j])@ == keys[j],
                i <= tenants@.len(),
                users == saturated(type_total(self.db(), keys.take(i as int), "User"@)),
                groups == saturated(type_total(self.db(), keys.take(i as int), "Group"@)),
            decreases tenants@.len() - i,
        {
            assert(keys.take(i + 1).drop_last() =~= keys.take(i as int));
            let u = self.database.get_resource_count(tenants[i].as_str(), "User");
            let g = self.database.get_resource_count(tenants[i].as_str(), "Group");
            users = add_capped(users, u);
            groups = add_capped(groups, g);
            i = i + 1;
        }
        assert(keys.take(tenants@.len() as int) =~= keys);
        let total = add_capped(users, groups);
        let mut resource_counts: StrMap<usize> = StrMap::new();
        if tenants.len() > 0 {
            resource_counts.insert(owned("User"), users);
            resource_counts.insert(owned("Group"), groups);
            proof {
                reveal_strlit("User");
                reveal_strlit("Group");
                assert("User"@.len() == 4 && "Group"@.len() == 5);
                assert(resource_counts@.dom() =~= set!["User"@, "Group"@]);
            }
        } else {
            assert(resource_counts@.dom() =~= Set::<Seq<char>>::empty());
        }
        DatabaseStats { tenant_count, total_resources: total, resource_counts }
    }
}

/// The (type, id) pairs of a tenant's resources of the given types, in order.
pub open spec fn select_keys(db: InMemoryDatabase, tenant: Seq<char>, types: Seq<Seq<char>>) -> Seq<(Seq<char>, Seq<char>)>
    decreases types.len(),
{
    if types.len() == 0 {
        Seq::empty()
    } else {
        select_keys(db, tenant, types.drop_last()) + db.ids(tenant, types.last()).map_values(
            |id: Seq<char>| (types.last(), id),
        )
    }
}

/// Whether a query row describes a stored resource.
pub open spec fn row_of(row: StrMap<JsonValue>, tenant: Seq<char>, resource_type: Seq<char>, id: Seq<char>, rec: RecordModel) -> bool {
    &&& row@.dom() == set!["id"@, "tenant_id"@, "resource_type"@, "data"@, "created_at"@, "updated_at"@]
    &&& row@["id"@]@ == Json::Str(id)
    &&& row@["tenant_id"@]@ == Json::Str(tenant)
    &&& row@["resource_type"@]@ == Json::Str(resource_type)
    &&& row@["data"@]@ == rec.data
    &&& row@["created_at"@]@ == Json::Str(rec.created_at)
    &&& row@["updated_at"@]@ == Json::Str(rec.updated_at)
}

/// Whether the resource under a key names another tenant in its `tenant_id` member.
pub open spec fn violates_isolation(db: InMemoryDatabase, k: KeyModel) -> bool {
    db.records().contains_key(k) && (db.records()[k].data.get("tenant_id"@) matches Some(v) && v != Json::Str(k.0))
}

/// The message reporting a resource that names another tenant.
pub open spec fn isolation_message(k: KeyModel, named: Json) -> Seq<char> {
    "Resource "@ + k.1 + "/"@ + k.2 + " in tenant "@ + k.0 + " contains tenant_id "@ + json_text(named)
}

/// A query row describing a stored resource.
fn make_row(tenant: &str, resource_type: &str, id: &str, rec: &DbRecord) -> (row: StrMap<JsonValue>)
    ensures
        row_of(row, tenant@, resource_type@, id@, rec@),
{
    let mut row: StrMap<JsonValue> = StrMap::new();
    let v0 = JsonValue::text(id);
    let v1 = JsonValue::text(tenant);
    let v2 = JsonValue::text(resource_type);
    let v3 = rec.resource.data.deep_clone();
    let v4 = JsonValue::text(rec.created_at.as_str());
    let v5 = JsonValue::text(rec.updated_at.as_str());
    let ghost g = seq![v0, v1, v2, v3, v4, v5];
    row.insert(owned("id"), v0);
    row.insert(owned("tenant_id"), v1);
    row.insert(owned("resource_type"), v2);
    row.insert(owned("data"), v3);
    row.insert(owned("created_at"), v4);
    row.insert(owned("updated_at"), v5);
    proof {
        reveal_strlit("id");
        reveal_strlit("tenant_id");
        reveal_strlit("resource_type");
        reveal_strlit("data");
        reveal_strlit("created_at");
        reveal_strlit("updated_at");
        assert("id"@.len() == 2 && "tenant_id"@.len() == 9 && "resource_type"@.len() == 13);
        assert("data"@.len() == 4 && "created_at"@.len() == 10 && "updated_at"@.len() == 10);
        assert("created_at"@[0] != "updated_at"@[0]);
        assert(row@.dom() =~= set!["id"@, "tenant_id"@, "resource_type"@, "data"@, "created_at"@, "updated_at"@]);
        assert(row@["id"@] == g[0]);
        assert(row@["tenant_id"@] == g[1]);
        assert(row@["resource_type"@] == g[2]);
        assert(row@["data"@] == g[3]);
        assert(row@["created_at"@] == g[4]);
        assert(row@["updated_at"@] == g[5]);
    }
    row
}

/// A row of the configurations table, its columns as text.
#[derive(Debug)]
pub struct ConfigRecord {
    pub tenant_id: String,
    pub display_name: String,
    pub created_at: String,
    pub last_modified: String,
    pub version: String,
    pub schema_config: String,
    pub operational_config: String,
    pub compliance_config: String,
    pub branding_config: String,
}

/// Mathematical model of a row of the configurations table.
pub struct ConfigRecordModel {
    pub tenant_id: Seq<char>,
    pub display_name: Seq<char>,
    pub created_at: Seq<char>,
    pub last_modified: Seq<char>,
    pub version: Seq<char>,
    pub schema_config: Seq<char>,
    pub operational_config: Seq<char>,
    pub compliance_config: Seq<char>,
    pub branding_config: Seq<char>,
}

impl ConfigRecord {
    /// The model of this row.
    pub open spec fn view(&self) -> ConfigRecordModel {
        ConfigRecordModel {
            tenant_id: self.tenant_id@,
            display_name: self.display_name@,
            created_at: self.created_at@,
            last_modified: self.last_modified@,
            version: self.version@,
            schema_config: self.schema_config@,
            operational_config: self.operational_config@,
            compliance_config: self.compliance_config@,
            branding_config: self.branding_config@,
        }
    }
}

/// What a query asks of the configurations table.
pub enum ConfigStatement {
    Insert,
    Update,
    Delete,
    Count,
    SelectOne,
    Other,
}

/// The kind of a query, read from its text without surrounding whitespace:
/// an insert, update or delete of `tenant_configurations`, a count of its
/// rows, a select of one tenant's row (`WHERE tenant_id = ?`), or another
/// query.
pub open spec fn config_statement_kind(query: Seq<char>) -> ConfigStatement {
    let t = trim_seq(query);
    if starts_with(t, "INSERT INTO tenant_configurations"@) {
        ConfigStatement::Insert
    } else if starts_with(t, "UPDATE tenant_configurations"@) {
        ConfigStatement::Update
    } else if starts_with(t, "DELETE FROM tenant_configurations"@) {
        ConfigStatement::Delete
    } else if starts_with(t, "SELECT COUNT(*)"@) && contains_seq(t, " FROM tenant_configurations"@) {
        ConfigStatement::Count
    } else if starts_with(t, "SELECT "@) && contains_seq(t, "FROM tenant_configurations"@) && contains_seq(
        t,
        "WHERE tenant_id = ?"@,
    ) {
        ConfigStatement::SelectOne
    } else {
        ConfigStatement::Other
    }
}

fn classify(query: &str) -> (r: ConfigStatement)
    ensures
        r == config_statement_kind(query@),
{
    let t = trim(query);
    let t = t.as_str();
    if has_prefix(t, "INSERT INTO tenant_configurations") {
        ConfigStatement::Insert
    } else if has_prefix(t, "UPDATE tenant_configurations") {
        ConfigStatement::Update
    } else if has_prefix(t, "DELETE FROM tenant_configurations") {
        ConfigStatement::Delete
    } else if has_prefix(t, "SELECT COUNT(*)") && contains_str(t, " FROM tenant_configurations") {
        ConfigStatement::Count
    } else if has_prefix(t, "SELECT ") && contains_str(t, "FROM tenant_configurations") && contains_str(
        t,
        "WHERE tenant_id = ?",
    ) {
        ConfigStatement::SelectOne
    } else {
        ConfigStatement::Other
    }
}

/// The texts of query parameters.
pub open spec fn param_texts(params: Seq<String>) -> Seq<Seq<char>> {
    Seq::new(params.len(), |i: int| params[i]@)
}

/// The row an insert stores, from its parameters: tenant id, display name,
/// creation and modification times, version and the four sections.
pub open spec fn inserted_config(p: Seq<Seq<char>>) -> ConfigRecordModel {
    ConfigRecordModel {
        tenant_id: p[0],
        display_name: p[1],
        created_at: p[2],
        last_modified: p[3],
        version: p[4],
        schema_config: p[5],
        operational_config: p[6],
        compliance_config: p[7],
        branding_config: p[8],
    }
}

/// The row an update makes of row `c`, from its parameters: display name,
/// modification time, version and the four sections (then the tenant id and
/// the expected version, which select the row).
pub open spec fn updated_config(c: ConfigRecordModel, p: Seq<Seq<char>>) -> ConfigRecordModel {
    ConfigRecordModel {
        display_name: p[0],
        last_modified: p[1],
        version: p[2],
        schema_config: p[3],
        operational_config: p[4],
        compliance_config: p[5],
        branding_config: p[6],
        ..c
    }
}

/// Whether a stored version is the integer that `given` denotes.
pub open spec fn version_matches(stored: Seq<char>, given: Seq<char>) -> bool {
    json_i64(Json::Number(stored)) is Some && json_i64(Json::Number(stored)) == json_i64(Json::Number(given))
}

fn same_version(stored: &String, given: &String) -> (r: bool)
    ensures
        r == version_matches(stored@, given@),
{
    let a = JsonValue::Number(stored.clone()).as_i64();
    let b = JsonValue::Number(given.clone()).as_i64();
    match a {
        Some(x) => match b {
            Some(y) => x == y,
            None => false,
        },
        None => false,
    }
}

/// The `version` column of a row: a number when the text is an integer in
/// range, else the text.
pub open spec fn version_json(t: Seq<char>) -> Json {
    if json_i64(Json::Number(t)) is Some {
        Json::Number(t)
    } else {
        Json::Str(t)
    }
}

/// Whether a query row holds the columns of a configuration row.
pub open spec fn config_row_of(row: StrMap<JsonValue>, c: ConfigRecordModel) -> bool {
    &&& row@.dom() == set![
        "tenant_id"@,
        "display_name"@,
        "created_at"@,
        "last_modified"@,
        "version"@,
        "schema_config"@,
        "operational_config"@,
        "compliance_config"@,
        "branding_config"@,
    ]
    &&& row@["tenant_id"@]@ == Json::Str(c.tenant_id)
    &&& row@["display_name"@]@ == Json::Str(c.display_name)
    &&& row@["created_at"@]@ == Json::Str(c.created_at)
    &&& row@["last_modified"@]@ == Json::Str(c.last_modified)
    &&& row@["version"@]@ == version_json(c.version)
    &&& row@["schema_config"@]@ == Json::Str(c.schema_config)
    &&& row@["operational_config"@]@ == Json::Str(c.operational_config)
    &&& row@["compliance_config"@]@ == Json::Str(c.compliance_config)
    &&& row@["branding_config"@]@ == Json::Str(c.branding_config)
}

fn make_config_row(c: &ConfigRecord) -> (row: StrMap<JsonValue>)
    ensures
        config_row_of(row, c@),
{
    let version = JsonValue::Number(c.version.clone());
    let version = if version.as_i64().is_some() {
        version
    } else {
        JsonValue::text(c.version.as_str())
    };
    let v0 = JsonValue::text(c.tenant_id.as_str());
    let v1 = JsonValue::text(c.display_name.as_str());
    let v2 = JsonValue::text(c.created_at.as_str());
    let v3 = JsonValue::text(c.last_modified.as_str());
    let v5 = JsonValue::text(c.schema_config.as_str());
    let v6 = JsonValue::text(c.operational_config.as_str());
    let v7 = JsonValue::text(c.compliance_config.as_str());
    let v8 = JsonValue::text(c.branding_config.as_str());
    let ghost g = seq![v0, v1, v2, v3, version, v5, v6, v7, v8];
    let mut row: StrMap<JsonValue> = StrMap::new();
    row.insert(owned("tenant_id"), v0);
    row.insert(owned("display_name"), v1);
    row.insert(owned("created_at"), v2);
    row.insert(owned("last_modified"), v3);
    row.insert(owned("version"), version);
    row.insert(owned("schema_config"), v5);
    row.insert(owned("operational_config"), v6);
    row.insert(owned("compliance_config"), v7);
    row.insert(owned("branding_config"), v8);
    proof {
        reveal_strlit("tenant_id");
        reveal_strlit("display_name");
        reveal_strlit("created_at");
        reveal_strlit("last_modified");
        reveal_strlit("version");
        reveal_strlit("schema_config");
        reveal_strlit("operational_config");
        reveal_strlit("compliance_config");
        reveal_strlit("branding_config");
        assert("tenant_id"@.len() == 9 && "display_name"@.len() == 12 && "created_at"@.len() == 10);
        assert("last_modified"@.len() == 13 && "version"@.len() == 7 && "schema_config"@.len() == 13);
        assert("operational_config"@.len() == 18 && "compliance_config"@.len() == 17);
        assert("branding_config"@.len() == 15);
        assert("last_modified"@[0] != "schema_config"@[0]);
        assert(row@.dom() =~= set![
            "tenant_id"@,
            "display_name"@,
            "created_at"@,
            "last_modified"@,
            "version"@,
            "schema_config"@,
            "operational_config"@,
            "compliance_config"@,
            "branding_config"@,
        ]);
        assert(row@["tenant_id"@] == g[0]);
        assert(row@["display_name"@] == g[1]);
        assert(row@["created_at"@] == g[2]);
        assert(row@["last_modified"@] == g[3]);
        assert(row@["version"@] == g[4]);
        assert(row@["schema_config"@] == g[5]);
        assert(row@["operational_config"@] == g[6]);
        assert(row@["compliance_config"@] == g[7]);
        assert(row@["branding_config"@] == g[8]);
    }
    row
}

/// The error of a query given the wrong number of parameters.
pub open spec fn arity_error(e: DatabaseError) -> bool {
    e matches DatabaseError::QueryFailed { message } && message@ == "Wrong number of parameters"@
}

/// The error of an insert for a tenant that already has a row.
pub open spec fn duplicate_row_error(e: DatabaseError, tenant_id: Seq<char>) -> bool {
    e matches DatabaseError::QueryFailed { message } && message@ == "Duplicate configuration for tenant "@ + tenant_id
}

/// The outcome of a query to the configurations table with parameters `p`,
/// on table `t` before and `t2` after.
pub open spec fn config_outcome(
    kind: ConfigStatement,
    t: Map<Seq<char>, ConfigRecordModel>,
    t2: Map<Seq<char>, ConfigRecordModel>,
    p: Seq<Seq<char>>,
    r: Result<DatabaseResult, DatabaseError>,
) -> bool {
    match kind {
        ConfigStatement::Insert => if p.len() != 9 {
            r matches Err(e) && arity_error(e) && t2 == t
        } else if t.contains_key(p[0]) {
            r matches Err(e) && duplicate_row_error(e, p[0]) && t2 == t
        } else {
            r matches Ok(res) && res.rows@.len() == 0 && res.affected_rows == 1 && t2 == t.insert(
                p[0],
                inserted_config(p),
            )
        },
        ConfigStatement::Update => if p.len() != 9 {
            r matches Err(e) && arity_error(e) && t2 == t
        } else if t.contains_key(p[7]) && version_matches(t[p[7]].version, p[8]) {
            r matches Ok(res) && res.rows@.len() == 0 && res.affected_rows == 1 && t2 == t.insert(
                p[7],
                updated_config(t[p[7]], p),
            )
        } else {
            r matches Ok(res) && res.rows@.len() == 0 && res.affected_rows == 0 && t2 == t
        },
        ConfigStatement::Delete => if p.len() != 1 && p.len() != 2 {
            r matches Err(e) && arity_error(e) && t2 == t
        } else if t.contains_key(p[0]) && (p.len() == 1 || version_matches(t[p[0]].version, p[1])) {
            r matches Ok(res) && res.rows@.len() == 0 && res.affected_rows == 1 && t2 == t.remove(p[0])
        } else {
            r matches Ok(res) && res.rows@.len() == 0 && res.affected_rows == 0 && t2 == t
        },
        ConfigStatement::Count => t2 == t && (r matches Ok(res) && res.rows@.len() == 1 && res.affected_rows == 1
            && res.rows@[0]@.dom() == set!["count"@] && res.rows@[0]@["count"@]@ == Json::Number(decimal(t.len()))),
        ConfigStatement::SelectOne => if p.len() == 0 {
            r matches Err(e) && arity_error(e) && t2 == t
        } else if t.contains_key(p[0]) {
            t2 == t && (r matches Ok(res) && res.rows@.len() == 1 && res.affected_rows == 1 && config_row_of(
                res.rows@[0],
                t[p[0]],
            ))
        } else {
            t2 == t && (r matches Ok(res) && res.rows@.len() == 0 && res.affected_rows == 0)
        },
        ConfigStatement::Other => t2 == t,
    }
}

/// What an insert of a configuration row stored, a select of its tenant
/// gives back.
pub proof fn law_select_after_insert(
    t: Map<Seq<char>, ConfigRecordModel>,
    t2: Map<Seq<char>, ConfigRecordModel>,
    t3: Map<Seq<char>, ConfigRecordModel>,
    p: Seq<Seq<char>>,
    r: Result<DatabaseResult, DatabaseError>,
    q: Seq<Seq<char>>,
    r2: Result<DatabaseResult, DatabaseError>,
)
    requires
        config_outcome(ConfigStatement::Insert, t, t2, p, r),
        r is Ok,
        config_outcome(ConfigStatement::SelectOne, t2, t3, q, r2),
        q.len() > 0,
        q[0] == p[0],
    ensures
        r2 matches Ok(res) && res.rows@.len() == 1 && config_row_of(res.rows@[0], inserted_config(p)),
        t3 == t2,
{
}

/// An update that reports a row affected changes the row as the update
/// says, and a later select of the tenant gives that row; one that reports
/// none changes nothing.
pub proof fn law_select_after_update(
    t: Map<Seq<char>, ConfigRecordModel>,
    t2: Map<Seq<char>, ConfigRecordModel>,
    t3: Map<Seq<char>, ConfigRecordModel>,
    p: Seq<Seq<char>>,
    r: Result<DatabaseResult, DatabaseError>,
    q: Seq<Seq<char>>,
    r2: Result<DatabaseResult, DatabaseError>,
)
    requires
        config_outcome(ConfigStatement::Update, t, t2, p, r),
        config_outcome(ConfigStatement::SelectOne, t2, t3, q, r2),
        q.len() > 0,
        p.len() == 9,
        q[0] == p[7],
    ensures
        r matches Ok(res) && (res.affected_rows == 1 <==> (t.contains_key(p[7]) && version_matches(t[p[7]].version, p[8]))),
        r matches Ok(res) && res.affected_rows == 1 ==> (r2 matches Ok(res2) && res2.rows@.len() == 1 && config_row_of(
            res2.rows@[0],
            updated_config(t[p[7]], p),
        )),
        r matches Ok(res) && res.affected_rows == 0 ==> t2 == t,
{
}

/// Whether two databases hold the same resources, listings and counts.
pub open spec fn resources_kept(a: InMemoryDatabase, b: InMemoryDatabase) -> bool {
    &&& b.records() == a.records()
    &&& b.tenant_keys() == a.tenant_keys()
    &&& forall|t: Seq<char>, rt: Seq<char>| #[trigger] b.ids(t, rt) == a.ids(t, rt)
    &&& forall|t: Seq<char>| #[trigger] b.type_keys(t) == a.type_keys(t)
    &&& forall|t: Seq<char>, rt: Seq<char>| #[trigger] b.count_of(t, rt) == a.count_of(t, rt)
}

impl InMemoryDatabase {
    fn config_error(message: &str) -> (r: Result<DatabaseResult, DatabaseError>)
        ensures
            r matches Err(DatabaseError::QueryFailed { message: m }) && m@ == message@,
    {
        Err(DatabaseError::QueryFailed { message: owned(message) })
    }

    /// Runs a query to the configurations table.
    fn run_config_statement(&mut self, kind: ConfigStatement, params: &[String]) -> (r: Result<DatabaseResult, DatabaseError>)
        requires
            !(kind is Other),
        ensures
            config_outcome(kind, old(self).configurations(), final(self).configurations(), param_texts(params@), r),
            final(self).data == old(self).data,
            final(self).counts == old(self).counts,
    {
        let ghost t = self.configurations();
        let ghost p = param_texts(params@);
        match kind {
            ConfigStatement::Insert => {
                if params.len() != 9 {
                    return Self::config_error("Wrong number of parameters");
                }
                if self.configurations.contains_key(params[0].as_str()) {
                    let message = concat("Duplicate configuration for tenant ", params[0].as_str());
                    return Err(DatabaseError::QueryFailed { message });
                }
                let rec = ConfigRecord {
                    tenant_id: copy_string(&params[0]),
                    display_name: copy_string(&params[1]),
                    created_at: copy_string(&params[2]),
                    last_modified: copy_string(&params[3]),
                    version: copy_string(&params[4]),
                    schema_config: copy_string(&params[5]),
                    operational_config: copy_string(&params[6]),
                    compliance_config: copy_string(&params[7]),
                    branding_config: copy_string(&params[8]),
                };
                assert(rec@ == inserted_config(p));
                self.configurations.insert(copy_string(&params[0]), rec);
                assert(self.configurations() =~= t.insert(p[0], inserted_config(p)));
                Ok(DatabaseResult::new_affected(1))
            },
            ConfigStatement::Update => {
                if params.len() != 9 {
                    return Self::config_error("Wrong number of parameters");
                }
                let next = match self.configurations.get(params[7].as_str()) {
                    Some(c) => {
                        if same_version(&c.version, &params[8]) {
                            Some(
                                ConfigRecord {
                                    tenant_id: copy_string(&c.tenant_id),
                                    display_name: copy_string(&params[0]),
                                    created_at: copy_string(&c.created_at),
                                    last_modified: copy_string(&params[1]),
                                    version: copy_string(&params[2]),
                                    schema_config: copy_string(&params[3]),
                                    operational_config: copy_string(&params[4]),
                                    compliance_config: copy_string(&params[5]),
                                    branding_config: copy_string(&params[6]),
                                },
                            )
                        } else {
                            None
                        }
                    },
                    None => None,
                };
                match next {
                    Some(rec) => {
                        assert(rec@ == updated_config(t[p[7]], p));
                        self.configurations.insert(copy_string(&params[7]), rec);
                        assert(self.configurations() =~= t.insert(p[7], updated_config(t[p[7]], p)));
                        Ok(DatabaseResult::new_affected(1))
                    },
                    None => Ok(DatabaseResult::new()),
                }
            },
            ConfigStatement::Delete => {
                if params.len() != 1 && params.len() != 2 {
                    return Self::config_error("Wrong number of parameters");
                }
                let matches = match self.configurations.get(params[0].as_str()) {
                    Some(c) => params.len() == 1 || same_version(&c.version, &params[1]),
                    None => false,
                };
                if matches {
                    self.configurations.remove(params[0].as_str());
                    assert(self.configurations() =~= t.remove(p[0]));
                    Ok(DatabaseResult::new_affected(1))
                } else {
                    Ok(DatabaseResult::new())
                }
            },
            ConfigStatement::Count => {
                let n = self.configurations.len();
                assert(t.dom() =~= self.configurations@.dom());
                let mut row: StrMap<JsonValue> = StrMap::new();
                row.insert(owned("count"), JsonValue::Number(decimal_string(n as u64)));
                assert(row@.dom() =~= set!["count"@]);
                let mut rows: Vec<StrMap<JsonValue>> = Vec::new();
                rows.push(row);
                Ok(DatabaseResult::with_rows(rows))
            },
            _ => {
                if params.len() == 0 {
                    return Self::config_error("Wrong number of parameters");
                }
                match self.configurations.get(params[0].as_str()) {
                    Some(c) => {
                        let row = make_config_row(c);
                        let mut rows: Vec<StrMap<JsonValue>> = Vec::new();
                        rows.push(row);
                        Ok(DatabaseResult::with_rows(rows))
                    },
                    None => Ok(DatabaseResult::new()),
                }
            },
        }
    }
}

impl InMemoryDatabase {
    /// Runs a query for a tenant. Queries to the configurations table
    /// insert, update, delete, count or select its rows, as
    /// `config_outcome` says, and leave the resources alone. Of other
    /// queries, a `SELECT` gives a row for each of the tenant's resources,
    /// by type and then id in order, and any other query gives no rows;
    /// they change nothing.
    pub fn execute_query(&mut self, query: &str, params: &[String], tenant_id: &str) -> (r: Result<DatabaseResult, DatabaseError>)
        ensures
            !(config_statement_kind(query@) is Other) ==> config_outcome(
                config_statement_kind(query@),
                old(self).configurations(),
                final(self).configurations(),
                param_texts(params@),
                r,
            ) && resources_kept(*old(self), *final(self)),
            config_statement_kind(query@) is Other ==> *final(self) == *old(self) && old(self).resource_query(
                query@,
                tenant_id@,
                r,
            ),
    {
        let kind = classify(query);
        match kind {
            ConfigStatement::Other => self.select_resources(query, tenant_id),
            _ => {
                let r = self.run_config_statement(kind, params);
                assert(self.records() =~= old(self).records());
                r
            },
        }
    }

    /// The answer to a query that is not about configurations: a `SELECT`
    /// gives a row for each of the tenant's resources, by type and then id in
    /// order; any other query gives no rows.
    pub open spec fn resource_query(&self, query: Seq<char>, tenant_id: Seq<char>, r: Result<DatabaseResult, DatabaseError>) -> bool {
        &&& starts_with(query, "SELECT"@) ==> (r matches Ok(res) && {
                let keys = select_keys(*self, tenant_id, self.type_keys(tenant_id));
                &&& res.rows@.len() == keys.len()
                &&& res.affected_rows == keys.len()
                &&& forall|m: int|
                    0 <= m < keys.len() ==> row_of(
                        #[trigger] res.rows@[m],
                        tenant_id,
                        keys[m].0,
                        keys[m].1,
                        self.records()[(tenant_id, keys[m].0, keys[m].1)],
                    )
            })
        &&& !starts_with(query, "SELECT"@) ==> (r matches Ok(res) && res.rows@.len() == 0 && res.affected_rows == 0)
    }

    fn select_resources(&self, query: &str, tenant_id: &str) -> (r: Result<DatabaseResult, DatabaseError>)
        ensures
            starts_with(query@, "SELECT"@) ==> (r matches Ok(res) && {
                let keys = select_keys(*self, tenant_id@, self.type_keys(tenant_id@));
                &&& res.rows@.len() == keys.len()
                &&& res.affected_rows == keys.len()
                &&& forall|m: int|
                    0 <= m < keys.len() ==> row_of(
                        #[trigger] res.rows@[m],
                        tenant_id@,
                        keys[m].0,
                        keys[m].1,
                        self.records()[(tenant_id@, keys[m].0, keys[m].1)],
                    )
            }),
            !starts_with(query@, "SELECT"@) ==> (r matches Ok(res) && res.rows@.len() == 0 && res.affected_rows == 0),
    {
        if !has_prefix(query, "SELECT") {
            return Ok(DatabaseResult::new());
        }
        let mut rows: Vec<StrMap<JsonValue>> = Vec::new();
        match self.data.get(tenant_id) {
            Some(types) => {
                let tk = types.keys();
                let ghost tks = self.type_keys(tenant_id@);
                let mut j: usize = 0;
                while j < tk.len()
                    invariant
                        self.data@.contains_key(tenant_id@),
                        *types == self.data@[tenant_id@],
                        tks == self.type_keys(tenant_id@),
                        tks == types.key_seq(),
                        tk@.len() == tks.len(),
                        forall|q: int| 0 <= q < tk@.len() ==> (#[trigger] tk@[q])@ == tks[q],
                        j <= tk@.len(),
                        rows@.len() == select_keys(*self, tenant_id@, tks.take(j as int)).len(),
                        forall|m: int|
                            0 <= m < rows@.len() ==> row_of(
                                #[trigger] rows@[m],
                                tenant_id@,
                                select_keys(*self, tenant_id@, tks.take(j as int))[m].0,
                                select_keys(*self, tenant_id@, tks.take(j as int))[m].1,
                                self.records()[(
                                    tenant_id@,
                                    select_keys(*self, tenant_id@, tks.take(j as int))[m].0,
                                    select_keys(*self, tenant_id@, tks.take(j as int))[m].1,
                                )],
                            ),
                    decreases tk@.len() - j,
                {
                    let ghost before = select_keys(*self, tenant_id@, tks.take(j as int));
                    let ghost rt = tks[j as int];
                    assert(tks.take(j + 1).drop_last() =~= tks.take(j as int));
                    assert(tks.take(j + 1).last() == rt);
                    let ghost after = select_keys(*self, tenant_id@, tks.take(j + 1));
                    assert(after == before + self.ids(tenant_id@, rt).map_values(|id: Seq<char>| (rt, id)));
                    proof {
                        types.lemma_keys();
                    }
                    let ids = types.value_at(j);
                    let idk = ids.keys();
                    assert(self.ids(tenant_id@, rt) == ids.key_seq());
                    let mut k: usize = 0;
                    while k < idk.len()
                        invariant
                            self.data@.contains_key(tenant_id@),
                            *types == self.data@[tenant_id@],
                            types@.contains_key(rt),
                            *ids == types@[rt],
                            self.ids(tenant_id@, rt) == ids.key_seq(),
                            j < tk@.len(),
                            tk@[j as int]@ == rt,
                            idk@.len() == ids.key_seq().len(),
                            forall|q: int| 0 <= q < idk@.len() ==> (#[trigger] idk@[q])@ == ids.key_seq()[q],
                            after == before + self.ids(tenant_id@, rt).map_values(|id: Seq<char>| (rt, id)),
                            k <= idk@.len(),
                            rows@.len() == before.len() + k,
                            forall|m: int|
                                0 <= m < rows@.len() ==> row_of(
                                    #[trigger] rows@[m],
                                    tenant_id@,
                                    after[m].0,
                                    after[m].1,
                                    self.records()[(tenant_id@, after[m].0, after[m].1)],
                                ),
                        decreases idk@.len() - k,
                    {
                        proof {
                            ids.lemma_keys();
                        }
                        let rec = ids.value_at(k);
                        let ghost id = ids.key_seq()[k as int];
                        assert(self.lookup((tenant_id@, rt, id)) is Some);
                        assert(after[before.len() + k] == (rt, id));
                        assert(self.records()[(tenant_id@, rt, id)] == rec@);
                        let row = make_row(tenant_id, tk[j].as_str(), idk[k].as_str(), rec);
                        let ghost before_rows = rows@;
                        rows.push(row);
                        assert forall|m: int| 0 <= m < rows@.len() implies row_of(
                            #[trigger] rows@[m],
                            tenant_id@,
                            after[m].0,
                            after[m].1,
                            self.records()[(tenant_id@, after[m].0, after[m].1)],
                        ) by {
                            if m < before_rows.len() {
                                assert(rows@[m] == before_rows[m]);
                            }
                        }
                        k = k + 1;
                    }
                    j = j + 1;
                }
                assert(tks.take(tk@.len() as int) =~= tks);
            },
            None => {
                assert(select_keys(*self, tenant_id@, self.type_keys(tenant_id@)) =~= Seq::<(Seq<char>, Seq<char>)>::empty());
            },
        }
        Ok(DatabaseResult::with_rows(rows))
    }

    /// Fails when the resource of a tenant and type at some id names another
    /// tenant in its `tenant_id` member.
    fn check_type_isolation(&self, tenant_id: &str, resource_type: &str) -> (r: Result<(), DatabaseError>)
        ensures
            r is Ok <==> forall|id: Seq<char>| !#[trigger] violates_isolation(*self, (tenant_id@, resource_type@, id)),
            r matches Err(e) ==> exists|id: Seq<char>|
                #[trigger] violates_isolation(*self, (tenant_id@, resource_type@, id)) && (e matches DatabaseError::IsolationViolation {
                    message,
                } && message@ == isolation_message(
                    (tenant_id@, resource_type@, id),
                    self.records()[(tenant_id@, resource_type@, id)].data.get("tenant_id"@)->0,
                )),
    {
        proof {
            self.lemma_ids(tenant_id@, resource_type@);
        }
        match self.data.get(tenant_id) {
            Some(types) => match types.get(resource_type) {
                Some(ids) => {
                    let idk = ids.keys();
                    let mut k: usize = 0;
                    while k < idk.len()
                        invariant
                            self.data@.contains_key(tenant_id@),
                            *types == self.data@[tenant_id@],
                            types@.contains_key(resource_type@),
                            *ids == types@[resource_type@],
                            self.ids(tenant_id@, resource_type@) == ids.key_seq(),
                            idk@.len() == ids.key_seq().len(),
                            forall|q: int| 0 <= q < idk@.len() ==> (#[trigger] idk@[q])@ == ids.key_seq()[q],
                            k <= idk@.len(),
                            forall|q: int| 0 <= q < k ==> !violates_isolation(*self, (tenant_id@, resource_type@, #[trigger] ids.key_seq()[q])),
                        decreases idk@.len() - k,
                    {
                        proof {
                            ids.lemma_keys();
                        }
                        let rec = ids.value_at(k);
                        let ghost id = ids.key_seq()[k as int];
                        assert(self.lookup((tenant_id@, resource_type@, id)) is Some);
                        match rec.resource.get_attribute("tenant_id") {
                            Some(v) => {
                                let ok = match v.as_str() {
                                    Some(s) => str_eq(s.as_str(), tenant_id),
                                    None => false,
                                };
                                if !ok {
                                    let a = concat("Resource ", resource_type);
                                    let b = concat(a.as_str(), "/");
                                    let c = concat(b.as_str(), idk[k].as_str());
                                    let d = concat(c.as_str(), " in tenant ");
                                    let e = concat(d.as_str(), tenant_id);
                                    let f = concat(e.as_str(), " contains tenant_id ");
                                    let message = concat(f.as_str(), v.to_json_string().as_str());
                                    assert(violates_isolation(*self, (tenant_id@, resource_type@, id)));
                                    return Err(DatabaseError::IsolationViolation { message });
                                }
                            },
                            None => {},
                        }
                        k = k + 1;
                    }
                    proof {
                        assert forall|id: Seq<char>| !#[trigger] violates_isolation(*self, (tenant_id@, resource_type@, id)) by {
                            if violates_isolation(*self, (tenant_id@, resource_type@, id)) {
                                let q = ids.key_seq().index_of(id);
                                assert(ids.key_seq()[q] == id);
                            }
                        }
                    }
                    Ok(())
                },
                None => Ok(()),
            },
            None => Ok(()),
        }
    }

    /// Fails when a resource names another tenant than the one it is stored
    /// for in its `tenant_id` member.
    pub fn validate_isolation(&self) -> (r: Result<(), DatabaseError>)
        ensures
            r is Ok <==> forall|k: KeyModel| !#[trigger] violates_isolation(*self, k),
            r matches Err(e) ==> exists|k: KeyModel|
                #[trigger] violates_isolation(*self, k) && (e matches DatabaseError::IsolationViolation { message }
                    && message@ == isolation_message(k, self.records()[k].data.get("tenant_id"@)->0)),
    {
        let tenants = self.data.keys();
        let mut i: usize = 0;
        while i < tenants.len()
            invariant
                tenants@.len() == self.data.key_seq().len(),
                forall|q: int| 0 <= q < tenants@.len() ==> (#[trigger] tenants@[q])@ == self.data.key_seq()[q],
                forall|k: Seq<char>| #[trigger] self.data@.contains_key(k) ==> self.data.key_seq().contains(k),
                i <= tenants@.len(),
                forall|q: int, rt: Seq<char>, id: Seq<char>|
                    0 <= q < i ==> !#[trigger] violates_isolation(*self, (self.data.key_seq()[q], rt, id)),
            decreases tenants@.len() - i,
        {
            let types = match self.data.get(tenants[i].as_str()) {
                Some(t) => t,
                None => {
                    assert forall|rt: Seq<char>, id: Seq<char>| !#[trigger] violates_isolation(*self, (tenants@[i as int]@, rt, id)) by {}
                    i = i + 1;
                    continue;
                },
            };
            let tk = types.keys();
            let mut j: usize = 0;
            while j < tk.len()
                invariant
                    i < tenants@.len(),
                    self.data@.contains_key(tenants@[i as int]@),
                    *types == self.data@[tenants@[i as int]@],
                    tk@.len() == types.key_seq().len(),
                    forall|q: int| 0 <= q < tk@.len() ==> (#[trigger] tk@[q])@ == types.key_seq()[q],
                    forall|k: Seq<char>| #[trigger] types@.contains_key(k) ==> types.key_seq().contains(k),
                    j <= tk@.len(),
                    forall|q: int, id: Seq<char>|
                        0 <= q < j ==> !#[trigger] violates_isolation(*self, (tenants@[i as int]@, types.key_seq()[q], id)),
                decreases tk@.len() - j,
            {
                match self.check_type_isolation(tenants[i].as_str(), tk[j].as_str()) {
                    Ok(()) => {},
                    Err(e) => {
                        return Err(e);
                    },
                }
                j = j + 1;
            }
            proof {
                assert forall|rt: Seq<char>, id: Seq<char>| !#[trigger] violates_isolation(*self, (tenants@[i as int]@, rt, id)) by {
                    if violates_isolation(*self, (tenants@[i as int]@, rt, id)) {
                        assert(self.lookup((tenants@[i as int]@, rt, id)) is Some);
                        assert(types@.contains_key(rt));
                        let q = types.key_seq().index_of(rt);
                        assert(types.key_seq()[q] == rt);
                    }
                }
            }
            i = i + 1;
        }
        proof {
            assert forall|k: KeyModel| !#[trigger] violates_isolation(*self, k) by {
                if violates_isolation(*self, k) {
                    assert(self.lookup(k) is Some);
                    assert(self.data@.contains_key(k.0));
                    let q = self.data.key_seq().index_of(k.0);
                    assert(self.data.key_seq()[q] == k.0);
                    assert(!violates_isolation(*self, (self.data.key_seq()[q], k.1, k.2)));
                }
            }
        }
        Ok(())
    }
}

} // verus!
