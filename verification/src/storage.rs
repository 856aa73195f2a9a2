//! In-memory storage of resource documents, keyed by tenant, resource type
//! and resource id.
//!
//! Every stored document carries a version number. Documents of one tenant
//! and resource type are listed in the order in which their ids were first
//! stored.

use vstd::prelude::*;
use crate::collections::{StrMap, add_capped, saturated};
use crate::text::str_eq;
use crate::json::{Json, JsonValue};

verus! {

/// A stored document and its version.
pub struct StoredResource {
    pub data: JsonValue,
    pub version: u64,
}

/// Mathematical model of a stored document.
pub struct StoredModel {
    pub data: Json,
    pub version: u64,
}

impl StoredResource {
    /// The model of this stored document.
    pub open spec fn view(&self) -> StoredModel {
        StoredModel { data: self.data@, version: self.version }
    }

    /// A copy of this stored document.
    pub fn copy(&self) -> (r: StoredResource)
        ensures
            r@ == self@,
    {
        StoredResource { data: self.data.deep_clone(), version: self.version }
    }
}

/// The key of a stored document: tenant id, resource type and resource id.
pub type KeyModel = (Seq<char>, Seq<char>, Seq<char>);

/// Documents keyed by tenant, resource type and id.
pub struct InMemoryStorage {
    tenants: StrMap<StrMap<StrMap<StoredResource>>>,
}

impl InMemoryStorage {
    spec fn lookup(self, k: KeyModel) -> Option<StoredModel> {
        let t = self.tenants@;
        if t.contains_key(k.0) && t[k.0]@.contains_key(k.1) && t[k.0]@[k.1]@.contains_key(k.2) {
            Some(t[k.0]@[k.1]@[k.2]@)
        } else {
            None
        }
    }

    /// The stored documents by key.
    pub closed spec fn view(&self) -> Map<KeyModel, StoredModel> {
        Map::new(|k: KeyModel| self.lookup(k) is Some, |k: KeyModel| self.lookup(k)->0)
    }

    /// The ids stored for a tenant and resource type, in listing order.
    pub closed spec fn ids(&self, tenant: Seq<char>, resource_type: Seq<char>) -> Seq<Seq<char>> {
        let t = self.tenants@;
        if t.contains_key(tenant) && t[tenant]@.contains_key(resource_type) {
            t[tenant]@[resource_type].key_seq()
        } else {
            Seq::empty()
        }
    }

    /// The tenants that hold at least one stored entry map, in order.
    pub closed spec fn tenant_seq(&self) -> Seq<Seq<char>> {
        self.tenants.key_seq()
    }

    /// The resource types held for a tenant, in order.
    pub closed spec fn type_seq(&self, tenant: Seq<char>) -> Seq<Seq<char>> {
        if self.tenants@.contains_key(tenant) {
            self.tenants@[tenant].key_seq()
        } else {
            Seq::empty()
        }
    }

    /// A tenant and type with stored ids are listed.
    pub proof fn lemma_listed(&self, tenant: Seq<char>, resource_type: Seq<char>)
        requires
            self.ids(tenant, resource_type).len() > 0,
        ensures
            self.tenant_seq().contains(tenant),
            self.type_seq(tenant).contains(resource_type),
    {
        self.tenants.lemma_keys();
        self.tenants@[tenant].lemma_keys();
    }

    /// The listing of a tenant and resource type: distinct ids, each stored.
    pub proof fn lemma_ids(&self, tenant: Seq<char>, resource_type: Seq<char>)
        ensures
            forall|i: int|
                0 <= i < self.ids(tenant, resource_type).len() ==> self@.contains_key(
                    (tenant, resource_type, #[trigger] self.ids(tenant, resource_type)[i]),
                ),
            forall|id: Seq<char>|
                #[trigger] self@.contains_key((tenant, resource_type, id)) ==> self.ids(
                    tenant,
                    resource_type,
                ).contains(id),
    {
        let t = self.tenants@;
        if t.contains_key(tenant) && t[tenant]@.contains_key(resource_type) {
            let m = t[tenant]@[resource_type];
            m.lemma_keys();
            assert forall|i: int|
                0 <= i < self.ids(tenant, resource_type).len() implies self@.contains_key(
                (tenant, resource_type, #[trigger] self.ids(tenant, resource_type)[i]),
            ) by {
                assert(self.lookup((tenant, resource_type, m.key_seq()[i])) is Some);
            }
            assert forall|id: Seq<char>| #[trigger]
                self@.contains_key((tenant, resource_type, id)) implies self.ids(
                tenant,
                resource_type,
            ).contains(id) by {
                assert(self.lookup((tenant, resource_type, id)) is Some);
                assert(m@.contains_key(id));
            }
        } else {
            assert forall|id: Seq<char>| #[trigger]
                self@.contains_key((tenant, resource_type, id)) implies self.ids(
                tenant,
                resource_type,
            ).contains(id) by {
                assert(self.lookup((tenant, resource_type, id)) is Some);
            }
        }
    }

    /// An empty storage.
    pub fn new() -> (r: InMemoryStorage)
        ensures
            r@ == Map::<KeyModel, StoredModel>::empty(),
            forall|t: Seq<char>, rt: Seq<char>| #[trigger] r.ids(t, rt) == Seq::<Seq<char>>::empty(),
    {
        let r = InMemoryStorage { tenants: StrMap::new() };
        assert(r@ =~= Map::<KeyModel, StoredModel>::empty());
        r
    }

    /// The document stored under the key, if any.
    pub fn get(&self, tenant: &str, resource_type: &str, id: &str) -> (r: Option<&StoredResource>)
        ensures
            match r {
                Some(s) => self@.contains_key((tenant@, resource_type@, id@)) && self@[(
                    tenant@,
                    resource_type@,
                    id@,
                )] == s@,
                None => !self@.contains_key((tenant@, resource_type@, id@)),
            },
    {
        match self.tenants.get(tenant) {
            Some(types) => match types.get(resource_type) {
                Some(ids) => ids.get(id),
                None => None,
            },
            None => None,
        }
    }

    /// Whether a document is stored under the key.
    pub fn contains(&self, tenant: &str, resource_type: &str, id: &str) -> (r: bool)
        ensures
            r == self@.contains_key((tenant@, resource_type@, id@)),
    {
        self.get(tenant, resource_type, id).is_some()
    }

    /// Stores `data` with `version` under the key, replacing what was there.
    pub fn put(&mut self, tenant: &str, resource_type: &str, id: &str, data: JsonValue, version: u64)
        ensures
            final(self)@ == old(self)@.insert(
                (tenant@, resource_type@, id@),
                StoredModel { data: data@, version },
            ),
            forall|t: Seq<char>, rt: Seq<char>|
                (t, rt) != (tenant@, resource_type@) ==> #[trigger] final(self).ids(t, rt) == old(
                    self,
                ).ids(t, rt),
            old(self).ids(tenant@, resource_type@).contains(id@) ==> final(self).ids(
                tenant@,
                resource_type@,
            ) == old(self).ids(tenant@, resource_type@),
            !old(self).ids(tenant@, resource_type@).contains(id@) ==> final(self).ids(
                tenant@,
                resource_type@,
            ) == old(self).ids(tenant@, resource_type@).push(id@),
    {
        proof {
            old(self).lemma_ids(tenant@, resource_type@);
        }
        let ghost t0 = self.tenants@;
        let mut types = match self.tenants.remove(tenant) {
            Some(m) => m,
            None => StrMap::new(),
        };
        let ghost ty0 = types@;
        let ghost tyk0 = types.key_seq();
        let mut ids = match types.remove(resource_type) {
            Some(m) => m,
            None => StrMap::new(),
        };
        let ghost id0 = ids@;
        let ghost idk0 = ids.key_seq();
        let stored = StoredResource { data, version };
        ids.insert(id.to_owned(), stored);
        types.insert(resource_type.to_owned(), ids);
        self.tenants.insert(tenant.to_owned(), types);
        proof {
            let k = (tenant@, resource_type@, id@);
            assert forall|q: KeyModel| #![auto]
                self.lookup(q) == (if q == k {
                    Some(StoredModel { data: data@, version })
                } else {
                    old(self).lookup(q)
                }) by {}
            assert(self@ =~= old(self)@.insert(k, StoredModel { data: data@, version }));
            if t0.contains_key(tenant@) && t0[tenant@]@.contains_key(resource_type@) {
                t0[tenant@]@[resource_type@].lemma_keys();
            }
        }
    }

    /// Removes the document stored under the key; returns whether one was there.
    pub fn delete(&mut self, tenant: &str, resource_type: &str, id: &str) -> (r: bool)
        ensures
            r == old(self)@.contains_key((tenant@, resource_type@, id@)),
            final(self)@ == old(self)@.remove((tenant@, resource_type@, id@)),
            forall|t: Seq<char>, rt: Seq<char>|
                (t, rt) != (tenant@, resource_type@) ==> #[trigger] final(self).ids(t, rt) == old(
                    self,
                ).ids(t, rt),
            forall|x: Seq<char>| #[trigger]
                final(self).ids(tenant@, resource_type@).contains(x) <==> (old(self).ids(
                    tenant@,
                    resource_type@,
                ).contains(x) && x != id@),
    {
        let r = self.delete_entry(tenant, resource_type, id);
        proof {
            old(self).lemma_ids(tenant@, resource_type@);
            self.lemma_ids(tenant@, resource_type@);
            assert forall|x: Seq<char>| #[trigger]
                self.ids(tenant@, resource_type@).contains(x) <==> (old(self).ids(
                    tenant@,
                    resource_type@,
                ).contains(x) && x != id@) by {
                if self.ids(tenant@, resource_type@).contains(x) {
                    let i = choose|i: int| 0 <= i < self.ids(tenant@, resource_type@).len() && self.ids(tenant@, resource_type@)[i] == x;
                    assert(self@.contains_key((tenant@, resource_type@, self.ids(tenant@, resource_type@)[i])));
                }
                if old(self).ids(tenant@, resource_type@).contains(x) && x != id@ {
                    let i = choose|i: int| 0 <= i < old(self).ids(tenant@, resource_type@).len() && old(self).ids(tenant@, resource_type@)[i] == x;
                    assert(old(self)@.contains_key((tenant@, resource_type@, old(self).ids(tenant@, resource_type@)[i])));
                    assert(self@.contains_key((tenant@, resource_type@, x)));
                }
            }
        }
        r
    }

    fn delete_entry(&mut self, tenant: &str, resource_type: &str, id: &str) -> (r: bool)
        ensures
            r == old(self)@.contains_key((tenant@, resource_type@, id@)),
            final(self)@ == old(self)@.remove((tenant@, resource_type@, id@)),
            forall|t: Seq<char>, rt: Seq<char>|
                (t, rt) != (tenant@, resource_type@) ==> #[trigger] final(self).ids(t, rt) == old(
                    self,
                ).ids(t, rt),
    {
        let ghost t0 = self.tenants@;
        let mut types = match self.tenants.remove(tenant) {
            Some(m) => m,
            None => {
                proof {
                    assert(self@ =~= old(self)@.remove((tenant@, resource_type@, id@)));
                }
                return false;
            },
        };
        let mut ids = match types.remove(resource_type) {
            Some(m) => m,
            None => {
                self.tenants.insert(tenant.to_owned(), types);
                proof {
                    assert forall|q: KeyModel| #![auto] self.lookup(q) == old(self).lookup(q) by {}
                    assert(self@ =~= old(self)@.remove((tenant@, resource_type@, id@)));
                }
                return false;
            },
        };
        let removed = ids.remove(id);
        types.insert(resource_type.to_owned(), ids);
        self.tenants.insert(tenant.to_owned(), types);
        proof {
            let k = (tenant@, resource_type@, id@);
            assert forall|q: KeyModel| #![auto]
                self.lookup(q) == (if q == k {
                    None
                } else {
                    old(self).lookup(q)
                }) by {}
            assert(self@ =~= old(self)@.remove(k));
        }
        removed.is_some()
    }

    /// The number of documents stored for a tenant and resource type.
    pub fn count(&self, tenant: &str, resource_type: &str) -> (r: usize)
        ensures
            r == self.ids(tenant@, resource_type@).len(),
    {
        match self.tenants.get(tenant) {
            Some(types) => match types.get(resource_type) {
                Some(ids) => ids.len(),
                None => 0,
            },
            None => 0,
        }
    }

    /// Copies of the documents of a tenant and resource type, in listing order,
    /// each with its id.
    pub fn list(&self, tenant: &str, resource_type: &str) -> (r: Vec<(String, StoredResource)>)
        ensures
            r@.len() == self.ids(tenant@, resource_type@).len(),
            self.ids(tenant@, resource_type@).no_duplicates(),
            forall|i: int|
                0 <= i < r@.len() ==> (#[trigger] r@[i]).0@ == self.ids(tenant@, resource_type@)[i]
                    && r@[i].1@ == self@[(tenant@, resource_type@, r@[i].0@)],
    {
        let mut out: Vec<(String, StoredResource)> = Vec::new();
        match self.tenants.get(tenant) {
            Some(types) => match types.get(resource_type) {
                Some(ids) => {
                    let keys = ids.keys();
                    let mut i: usize = 0;
                    while i < keys.len()
                        invariant
                            self.tenants@.contains_key(tenant@),
                            *types == self.tenants@[tenant@],
                            types@.contains_key(resource_type@),
                            *ids == types@[resource_type@],
                            keys@.len() == ids.key_seq().len(),
                            forall|j: int| 0 <= j < keys@.len() ==> keys@[j]@ == ids.key_seq()[j],
                            forall|a: int, b: int|
                                0 <= a < b < ids.key_seq().len() ==> ids.key_seq()[a] != ids.key_seq()[b],
                            i <= keys@.len(),
                            out@.len() == i,
                            forall|j: int|
                                0 <= j < i ==> (#[trigger] out@[j]).0@ == ids.key_seq()[j]
                                    && out@[j].1@ == ids@[ids.key_seq()[j]]@,
                        decreases keys@.len() - i,
                    {
                        let v = ids.value_at(i);
                        out.push((keys[i].clone(), v.copy()));
                        i = i + 1;
                    }
                    proof {
                        let ks = ids.key_seq();
                        assert forall|a: int, b: int| 0 <= a < ks.len() && 0 <= b < ks.len() && a != b implies ks[a]
                            != ks[b] by {
                            if b < a {
                                assert(ks[b] != ks[a]);
                            }
                        }
                        assert forall|j: int| 0 <= j < out@.len() implies (#[trigger] out@[j]).1@
                            == self@[(tenant@, resource_type@, out@[j].0@)] by {
                            ids.lemma_keys();
                            assert(self.lookup((tenant@, resource_type@, out@[j].0@)) is Some);
                        }
                    }
                },
                None => {},
            },
            None => {},
        }
        out
    }

    /// Removes every document.
    pub fn clear(&mut self)
        ensures
            final(self)@ == Map::<KeyModel, StoredModel>::empty(),
            forall|t: Seq<char>, rt: Seq<char>| #[trigger] final(self).ids(t, rt) == Seq::<Seq<char>>::empty(),
    {
        self.tenants.clear();
        assert(self@ =~= Map::<KeyModel, StoredModel>::empty());
    }
}

/// Whether a tenant holds at least one resource.
pub open spec fn holds_resources(s: InMemoryStorage, tenant: Seq<char>) -> bool {
    exists|rt: Seq<char>| #[trigger] s.ids(tenant, rt).len() > 0
}

/// Whether some tenant holds a resource of a type.
pub open spec fn stored_type(s: InMemoryStorage, resource_type: Seq<char>) -> bool {
    exists|t: Seq<char>| #[trigger] s.ids(t, resource_type).len() > 0
}

/// The number of ids of a tenant over the given types.
pub open spec fn ids_total(s: InMemoryStorage, tenant: Seq<char>, types: Seq<Seq<char>>) -> nat
    decreases types.len(),
{
    if types.len() == 0 {
        0
    } else {
        ids_total(s, tenant, types.drop_last()) + s.ids(tenant, types.last()).len()
    }
}

/// The number of stored ids of the given tenants, over each tenant's types.
pub open spec fn storage_total(s: InMemoryStorage, tenants: Seq<Seq<char>>) -> nat
    decreases tenants.len(),
{
    if tenants.len() == 0 {
        0
    } else {
        storage_total(s, tenants.drop_last()) + ids_total(s, tenants.last(), s.type_seq(tenants.last()))
    }
}

/// With every listing empty, no tenant and no type holds a resource, and
/// the total over any tenants is zero.
pub proof fn lemma_empty_listings(s: InMemoryStorage, tenants: Seq<Seq<char>>)
    requires
        forall|t: Seq<char>, rt: Seq<char>| #[trigger] s.ids(t, rt).len() == 0,
    ensures
        storage_total(s, tenants) == 0,
        forall|t: Seq<char>| !holds_resources(s, t),
        forall|rt: Seq<char>| !stored_type(s, rt),
        tenants.filter(|t: Seq<char>| holds_resources(s, t)).len() == 0,
    decreases tenants.len(),
{
    if tenants.len() > 0 {
        lemma_empty_listings(s, tenants.drop_last());
        lemma_empty_ids_total(s, tenants.last(), s.type_seq(tenants.last()));
    }
    let f = tenants.filter(|t: Seq<char>| holds_resources(s, t));
    if f.len() > 0 {
        tenants.filter_lemma(|t: Seq<char>| holds_resources(s, t));
        assert(holds_resources(s, f[0]));
    }
}

proof fn lemma_empty_ids_total(s: InMemoryStorage, tenant: Seq<char>, types: Seq<Seq<char>>)
    requires
        forall|t: Seq<char>, rt: Seq<char>| #[trigger] s.ids(t, rt).len() == 0,
    ensures
        ids_total(s, tenant, types) == 0,
    decreases types.len(),
{
    if types.len() > 0 {
        lemma_empty_ids_total(s, tenant, types.drop_last());
        assert(s.ids(tenant, types.last()).len() == 0);
    }
}

/// Whether `v` lists distinct texts.
pub open spec fn distinct_texts(v: Seq<String>) -> bool {
    forall|i: int, j: int| 0 <= i < j < v.len() ==> v[i]@ != v[j]@
}

/// Whether some text in `v` is `t`.
pub open spec fn lists_text(v: Seq<String>, t: Seq<char>) -> bool {
    exists|i: int| 0 <= i < v.len() && #[trigger] v[i]@ == t
}

fn position_of(v: &Vec<String>, t: &str) -> (r: bool)
    ensures
        r == lists_text(v@, t@),
{
    let mut i: usize = 0;
    while i < v.len()
        invariant
            i <= v@.len(),
            forall|k: int| 0 <= k < i ==> v@[k]@ != t@,
        decreases v@.len() - i,
    {
        if str_eq(v[i].as_str(), t) {
            return true;
        }
        i = i + 1;
    }
    false
}

impl InMemoryStorage {
    /// Statistics of the stored resources: the number of tenants holding a
    /// resource, the total number of resources (capped at the largest
    /// `usize`), and the types held by some tenant, each once.
    pub fn stats(&self) -> (r: (usize, usize, Vec<String>))
        ensures
            r.0 == self.tenant_seq().filter(|t: Seq<char>| holds_resources(*self, t)).len(),
            r.1 == saturated(storage_total(*self, self.tenant_seq())),
            distinct_texts(r.2@),
            forall|rt: Seq<char>| stored_type(*self, rt) <==> lists_text(r.2@, rt),
            self.tenant_seq().no_duplicates(),
    {
        let tenants = self.tenants.keys();
        let ghost ts = self.tenant_seq();
        assert(ts.no_duplicates()) by {
            assert forall|a: int, b: int| 0 <= a < ts.len() && 0 <= b < ts.len() && a != b implies ts[a] != ts[b] by {
                if b < a {
                    assert(ts[b] != ts[a]);
                }
            }
        }
        let ghost keep = |t: Seq<char>| holds_resources(*self, t);
        let mut active: usize = 0;
        let mut total: usize = 0;
        let mut types: Vec<String> = Vec::new();
        let mut i: usize = 0;
        assert(ts.take(0).filter(keep) =~= Seq::<Seq<char>>::empty());
        while i < tenants.len()
            invariant
                ts == self.tenant_seq(),
                keep == (|t: Seq<char>| holds_resources(*self, t)),
                tenants@.len() == ts.len(),
                forall|q: int| 0 <= q < tenants@.len() ==> (#[trigger] tenants@[q])@ == ts[q],
                i <= ts.len(),
                active == ts.take(i as int).filter(keep).len(),
                total == saturated(storage_total(*self, ts.take(i as int))),
                distinct_texts(types@),
                forall|k: int| 0 <= k < types@.len() ==> stored_type(*self, #[trigger] types@[k]@),
                forall|q: int, rt: Seq<char>|
                    0 <= q < i && #[trigger] self.ids(ts[q], rt).len() > 0 ==> lists_text(types@, rt),
            decreases ts.len() - i,
        {
            proof {
                self.tenants.lemma_keys();
            }
            let ghost t = ts[i as int];
            let type_map = self.tenants.value_at(i);
            let tks = type_map.keys();
            let ghost rts = self.type_seq(t);
            let mut has = false;
            let mut sub: usize = 0;
            let mut j: usize = 0;
            assert(rts.take(0) =~= Seq::<Seq<char>>::empty());
            while j < tks.len()
                invariant
                    ts == self.tenant_seq(),
                    tenants@.len() == ts.len(),
                    forall|q: int| 0 <= q < tenants@.len() ==> (#[trigger] tenants@[q])@ == ts[q],
                    i < ts.len(),
                    t == ts[i as int],
                    self.tenants@.contains_key(t),
                    *type_map == self.tenants@[t],
                    rts == self.type_seq(t),
                    rts == type_map.key_seq(),
                    tks@.len() == rts.len(),
                    forall|q: int| 0 <= q < tks@.len() ==> (#[trigger] tks@[q])@ == rts[q],
                    j <= rts.len(),
                    has == exists|q: int| 0 <= q < j && #[trigger] self.ids(t, rts[q]).len() > 0,
                    sub == saturated(ids_total(*self, t, rts.take(j as int))),
                    distinct_texts(types@),
                    forall|k: int| 0 <= k < types@.len() ==> stored_type(*self, #[trigger] types@[k]@),
                    forall|q: int, rt: Seq<char>|
                        0 <= q < i && #[trigger] self.ids(ts[q], rt).len() > 0 ==> lists_text(types@, rt),
                    forall|q: int| 0 <= q < j && #[trigger] self.ids(t, rts[q]).len() > 0 ==> lists_text(types@, rts[q]),
                decreases rts.len() - j,
            {
                proof {
                    type_map.lemma_keys();
                }
                let ghost rt = rts[j as int];
                let ids = type_map.value_at(j);
                let n = ids.len();
                assert(n == self.ids(t, rt).len());
                assert(rts.take(j + 1).drop_last() =~= rts.take(j as int));
                sub = add_capped(sub, n);
                if n > 0 {
                    has = true;
                    if !position_of(&types, tks[j].as_str()) {
                        let ghost before = types@;
                        types.push(tks[j].clone());
                        assert(types@[before.len() as int]@ == rt);
                        assert(lists_text(types@, rt));
                        assert forall|k: int| 0 <= k < types@.len() implies stored_type(*self, #[trigger] types@[k]@) by {
                            if k < before.len() {
                                assert(types@[k] == before[k]);
                            }
                        }
                        assert forall|a: int, b: int| 0 <= a < b < types@.len() implies types@[a]@ != types@[b]@ by {
                            if b == before.len() {
                                assert(types@[a] == before[a]);
                            } else {
                                assert(types@[a] == before[a] && types@[b] == before[b]);
                            }
                        }
                        assert forall|x: Seq<char>| #[trigger] lists_text(before, x) implies lists_text(types@, x) by {
                            let w = choose|w: int| 0 <= w < before.len() && before[w]@ == x;
                            assert(types@[w] == before[w]);
                        }
                    }
                }
                j = j + 1;
            }
            assert(rts.take(rts.len() as int) =~= rts);
            proof {
                if holds_resources(*self, t) {
                    let rt = choose|rt: Seq<char>| #[trigger] self.ids(t, rt).len() > 0;
                    self.lemma_listed(t, rt);
                    let q = rts.index_of(rt);
                    assert(rts[q] == rt);
                }
                assert(ts.take(i + 1) =~= ts.take(i as int).push(t));
                assert(ts.take(i + 1).drop_last() =~= ts.take(i as int));
                assert(ts.take(i + 1).last() == t);
                assert(storage_total(*self, ts.take(i + 1)) == storage_total(*self, ts.take(i as int)) + ids_total(
                    *self,
                    t,
                    rts,
                ));
                ts.take(i as int).lemma_filter_push(t, keep);
                if has {
                    let q = choose|q: int| 0 <= q < j && #[trigger] self.ids(t, rts[q]).len() > 0;
                    assert(self.ids(t, rts[q]).len() > 0);
                }
                assert(has == keep(t));
            }
            if has {
                assert(ts.take(i as int).filter(keep).len() < ts.len() + 1) by {
                    ts.take(i as int).filter_lemma(keep);
                }
                active = active + 1;
            }
            total = add_capped(total, sub);
            i = i + 1;
        }
        proof {
            assert(ts.take(ts.len() as int) =~= ts);
            assert forall|rt: Seq<char>| stored_type(*self, rt) implies lists_text(types@, rt) by {
                let t = choose|t: Seq<char>| #[trigger] self.ids(t, rt).len() > 0;
                self.lemma_listed(t, rt);
                let q = ts.index_of(t);
                assert(ts[q] == t);
            }
            assert forall|rt: Seq<char>| lists_text(types@, rt) implies stored_type(*self, rt) by {
                let k = choose|k: int| 0 <= k < types@.len() && #[trigger] types@[k]@ == rt;
                assert(stored_type(*self, types@[k]@));
            }
        }
        (active, total, types)
    }
}

} // verus!
