//! JSON values carried by SCIM resources.
//!
//! `JsonValue` is the executable JSON document type used throughout the
//! library; `Json` is its mathematical counterpart, used in contracts.
//! Numbers are kept in their textual form so that no precision is lost.
//! Objects keep their members in order; lookups find the first member with
//! a given key, insertion replaces that member or appends a new one, and
//! removal drops every member with the key.

use vstd::prelude::*;
use crate::text::str_eq;

verus! {

/// Mathematical model of a JSON document.
pub enum Json {
    Null,
    Bool(bool),
    Number(Seq<char>),
    Str(Seq<char>),
    Array(Seq<Json>),
    Object(Seq<(Seq<char>, Json)>),
}

/// An executable JSON document.
#[derive(Debug)]
pub enum JsonValue {
    Null,
    Bool(bool),
    /// A number in its textual JSON form (for example `42` or `1.5`).
    Number(String),
    Str(String),
    Array(Vec<JsonValue>),
    Object(Vec<(String, JsonValue)>),
}

/// Whether `i` is the position of the first member named `key`.
pub open spec fn is_first_key(fields: Seq<(Seq<char>, Json)>, key: Seq<char>, i: int) -> bool {
    &&& 0 <= i < fields.len()
    &&& fields[i].0 == key
    &&& forall|j: int| 0 <= j < i ==> fields[j].0 != key
}

/// Whether an object's members contain `key`.
pub open spec fn has_key(fields: Seq<(Seq<char>, Json)>, key: Seq<char>) -> bool {
    exists|i: int| is_first_key(fields, key, i)
}

/// Position of the first member named `key` (meaningful when `has_key`).
pub open spec fn first_key_index(fields: Seq<(Seq<char>, Json)>, key: Seq<char>) -> int {
    choose|i: int| is_first_key(fields, key, i)
}

/// The value of the first member named `key`, if any.
pub open spec fn lookup(fields: Seq<(Seq<char>, Json)>, key: Seq<char>) -> Option<Json> {
    if has_key(fields, key) {
        Some(fields[first_key_index(fields, key)].1)
    } else {
        None
    }
}

/// The members after setting `key` to `value`: the first member named `key`
/// is replaced in place, or a new member is appended.
pub open spec fn insert_field(fields: Seq<(Seq<char>, Json)>, key: Seq<char>, value: Json) -> Seq<
    (Seq<char>, Json),
> {
    if has_key(fields, key) {
        fields.update(first_key_index(fields, key), (key, value))
    } else {
        fields.push((key, value))
    }
}

/// The members after removing every member named `key`.
pub open spec fn remove_field(fields: Seq<(Seq<char>, Json)>, key: Seq<char>) -> Seq<
    (Seq<char>, Json),
> {
    fields.filter(key_differs(key))
}

/// The predicate that keeps members not named `key`.
pub open spec fn key_differs(key: Seq<char>) -> spec_fn((Seq<char>, Json)) -> bool {
    |f: (Seq<char>, Json)| f.0 != key
}

impl Json {
    /// The value of member `key` when this is an object.
    pub open spec fn get(self, key: Seq<char>) -> Option<Json> {
        match self {
            Json::Object(fields) => lookup(fields, key),
            _ => None,
        }
    }

    /// This document with member `key` set, when it is an object; unchanged otherwise.
    pub open spec fn set(self, key: Seq<char>, value: Json) -> Json {
        match self {
            Json::Object(fields) => Json::Object(insert_field(fields, key, value)),
            _ => self,
        }
    }

    /// This document without member `key`, when it is an object; unchanged otherwise.
    pub open spec fn without(self, key: Seq<char>) -> Json {
        match self {
            Json::Object(fields) => Json::Object(remove_field(fields, key)),
            _ => self,
        }
    }

    /// The string held by member `key`, if that member is a string.
    pub open spec fn get_str(self, key: Seq<char>) -> Option<Seq<char>> {
        match self.get(key) {
            Some(Json::Str(s)) => Some(s),
            _ => None,
        }
    }

    /// The boolean held by member `key`, if that member is a boolean.
    pub open spec fn get_bool(self, key: Seq<char>) -> Option<bool> {
        match self.get(key) {
            Some(Json::Bool(b)) => Some(b),
            _ => None,
        }
    }
}

impl JsonValue {
    /// The mathematical JSON document this value represents.
    pub open spec fn view(&self) -> Json
        decreases self,
    {
        match self {
            JsonValue::Null => Json::Null,
            JsonValue::Bool(b) => Json::Bool(*b),
            JsonValue::Number(n) => Json::Number(n@),
            JsonValue::Str(s) => Json::Str(s@),
            JsonValue::Array(items) => Json::Array(
                Seq::new(
                    items@.len(),
                    |i: int|
                        if 0 <= i < items@.len() {
                            items@[i].view()
                        } else {
                            Json::Null
                        },
                ),
            ),
            JsonValue::Object(fields) => Json::Object(
                Seq::new(
                    fields@.len(),
                    |i: int|
                        if 0 <= i < fields@.len() {
                            (fields@[i].0@, fields@[i].1.view())
                        } else {
                            (Seq::empty(), Json::Null)
                        },
                ),
            ),
        }
    }
}

/// The view of an object's members.
pub open spec fn fields_view(s: Seq<(String, JsonValue)>) -> Seq<(Seq<char>, Json)> {
    Seq::new(s.len(), |i: int| (s[i].0@, s[i].1@))
}

/// The view of an array's items.
pub open spec fn items_view(s: Seq<JsonValue>) -> Seq<Json> {
    Seq::new(s.len(), |i: int| s[i]@)
}

/// An object's view is the view of its members.
pub proof fn lemma_object_view(fields: Vec<(String, JsonValue)>)
    ensures
        JsonValue::Object(fields)@ == Json::Object(fields_view(fields@)),
{
    match JsonValue::Object(fields)@ {
        Json::Object(f) => {
            assert(f =~= fields_view(fields@));
        },
        _ => {},
    }
}

/// An array's view is the view of its items.
pub proof fn lemma_array_view(items: Vec<JsonValue>)
    ensures
        JsonValue::Array(items)@ == Json::Array(items_view(items@)),
{
    match JsonValue::Array(items)@ {
        Json::Array(a) => {
            assert(a =~= items_view(items@));
        },
        _ => {},
    }
}

/// Position of the first member named `key` in `fields`, if any.
pub fn find_field(fields: &Vec<(String, JsonValue)>, key: &str) -> (r: Option<usize>)
    ensures
        match r {
            Some(i) => is_first_key(fields_view(fields@), key@, i as int),
            None => !has_key(fields_view(fields@), key@),
        },
{
    let ghost fv = fields_view(fields@);
    let mut i: usize = 0;
    while i < fields.len()
        invariant
            fv == fields_view(fields@),
            i <= fields.len(),
            forall|j: int| 0 <= j < i ==> fv[j].0 != key@,
        decreases fields.len() - i,
    {
        if str_eq(fields[i].0.as_str(), key) {
            return Some(i);
        }
        i = i + 1;
    }
    proof {
        assert forall|k: int| !is_first_key(fv, key@, k) by {}
    }
    None
}

/// The member lookup of a first-key position.
pub proof fn lemma_lookup_at(fields: Seq<(Seq<char>, Json)>, key: Seq<char>, i: int)
    requires
        is_first_key(fields, key, i),
    ensures
        has_key(fields, key),
        first_key_index(fields, key) == i,
        lookup(fields, key) == Some(fields[i].1),
{
    let k = first_key_index(fields, key);
    assert(is_first_key(fields, key, k));
    if k < i {
        assert(fields[k].0 != key);
    } else if i < k {
        assert(fields[i].0 != key);
    }
}

/// A member named `key` makes `key` a key of the members.
pub proof fn lemma_key_present(fields: Seq<(Seq<char>, Json)>, key: Seq<char>, j: int)
    requires
        0 <= j < fields.len(),
        fields[j].0 == key,
    ensures
        has_key(fields, key),
    decreases j,
{
    if exists|i: int| 0 <= i < j && fields[i].0 == key {
        let i = choose|i: int| 0 <= i < j && fields[i].0 == key;
        lemma_key_present(fields, key, i);
    } else {
        assert(is_first_key(fields, key, j));
    }
}

/// Setting a member of an object gives an object whose member is the value set.
pub proof fn lemma_get_set_same(j: Json, k: Seq<char>, v: Json)
    requires
        j is Object,
    ensures
        j.set(k, v) is Object,
        j.set(k, v).get(k) == Some(v),
{
    match j {
        Json::Object(fields) => {
            let nf = insert_field(fields, k, v);
            if has_key(fields, k) {
                let i = first_key_index(fields, k);
                assert(is_first_key(fields, k, i));
                assert(is_first_key(nf, k, i));
                lemma_lookup_at(nf, k, i);
            } else {
                let n = fields.len() as int;
                assert forall|q: int| 0 <= q < n implies nf[q].0 != k by {
                    if nf[q].0 == k {
                        lemma_key_present(fields, k, q);
                    }
                }
                assert(is_first_key(nf, k, n));
                lemma_lookup_at(nf, k, n);
            }
        },
        _ => {},
    }
}

/// Setting one member leaves every other member as it was.
pub proof fn lemma_get_set_other(j: Json, k1: Seq<char>, v: Json, k2: Seq<char>)
    requires
        k1 != k2,
    ensures
        j.set(k1, v).get(k2) == j.get(k2),
        j.set(k1, v).get_str(k2) == j.get_str(k2),
{
    match j {
        Json::Object(fields) => {
            let nf = insert_field(fields, k1, v);
            if has_key(fields, k1) {
                let i1 = first_key_index(fields, k1);
                assert(is_first_key(fields, k1, i1));
            }
            assert forall|i: int| 0 <= i < nf.len() && nf[i].0 == k2 implies i < fields.len() && fields[i] == nf[i] by {
                if has_key(fields, k1) {
                    let i1 = first_key_index(fields, k1);
                    assert(is_first_key(fields, k1, i1));
                }
            }
            assert forall|i: int| 0 <= i < fields.len() && fields[i].0 == k2 implies i < nf.len() && nf[i] == fields[i] by {
                if has_key(fields, k1) {
                    let i1 = first_key_index(fields, k1);
                    assert(is_first_key(fields, k1, i1));
                }
            }
            if has_key(fields, k2) {
                let i2 = first_key_index(fields, k2);
                assert(is_first_key(fields, k2, i2));
                assert(is_first_key(nf, k2, i2));
                lemma_lookup_at(nf, k2, i2);
                lemma_lookup_at(fields, k2, i2);
            } else {
                if has_key(nf, k2) {
                    let i = first_key_index(nf, k2);
                    assert(is_first_key(nf, k2, i));
                    assert(is_first_key(fields, k2, i));
                }
            }
        },
        _ => {},
    }
}

impl JsonValue {
    /// An empty object.
    pub fn object() -> (r: JsonValue)
        ensures
            r@ == Json::Object(Seq::empty()),
    {
        let fields: Vec<(String, JsonValue)> = Vec::new();
        proof {
            lemma_object_view(fields);
            assert(fields_view(fields@) =~= Seq::empty());
        }
        JsonValue::Object(fields)
    }

    /// A string value.
    pub fn text(s: &str) -> (r: JsonValue)
        ensures
            r@ == Json::Str(s@),
    {
        JsonValue::Str(s.to_owned())
    }

    /// Whether this value is an object.
    pub fn is_object(&self) -> (r: bool)
        ensures
            r == (self@ is Object),
    {
        match self {
            JsonValue::Object(_) => true,
            _ => false,
        }
    }

    /// Whether this value is null.
    pub fn is_null(&self) -> (r: bool)
        ensures
            r == (self@ is Null),
    {
        match self {
            JsonValue::Null => true,
            _ => false,
        }
    }

    /// The string held by this value, if it is a string.
    pub fn as_str(&self) -> (r: Option<&String>)
        ensures
            match r {
                Some(s) => self@ == Json::Str(s@),
                None => !(self@ is Str),
            },
    {
        match self {
            JsonValue::Str(s) => Some(s),
            _ => None,
        }
    }

    /// The boolean held by this value, if it is a boolean.
    pub fn as_bool(&self) -> (r: Option<bool>)
        ensures
            match r {
                Some(b) => self@ == Json::Bool(b),
                None => !(self@ is Bool),
            },
    {
        match self {
            JsonValue::Bool(b) => Some(*b),
            _ => None,
        }
    }

    /// The items of this value, if it is an array.
    pub fn as_array(&self) -> (r: Option<&Vec<JsonValue>>)
        ensures
            match r {
                Some(items) => self@ == Json::Array(items_view(items@)),
                None => !(self@ is Array),
            },
    {
        match self {
            JsonValue::Array(items) => {
                proof {
                    lemma_array_view(*items);
                }
                Some(items)
            },
            _ => None,
        }
    }

    /// The value of member `key`, when this is an object holding it.
    pub fn get(&self, key: &str) -> (r: Option<&JsonValue>)
        ensures
            match r {
                Some(v) => self@.get(key@) == Some(v@),
                None => self@.get(key@) is None,
            },
    {
        match self {
            JsonValue::Object(fields) => {
                proof {
                    lemma_object_view(*fields);
                }
                match find_field(fields, key) {
                    Some(i) => {
                        proof {
                            lemma_lookup_at(fields_view(fields@), key@, i as int);
                        }
                        Some(&fields[i].1)
                    },
                    None => None,
                }
            },
            _ => None,
        }
    }

    /// The string held by member `key`, if that member is a string.
    pub fn get_str(&self, key: &str) -> (r: Option<&String>)
        ensures
            match r {
                Some(s) => self@.get_str(key@) == Some(s@),
                None => self@.get_str(key@) is None,
            },
    {
        match self.get(key) {
            Some(v) => v.as_str(),
            None => None,
        }
    }

    /// The boolean held by member `key`, if that member is a boolean.
    pub fn get_bool(&self, key: &str) -> (r: Option<bool>)
        ensures
            r == self@.get_bool(key@),
    {
        match self.get(key) {
            Some(v) => v.as_bool(),
            None => None,
        }
    }

    /// A deep copy of this value.
    #[verifier::loop_isolation(false)]
    pub fn deep_clone(&self) -> (r: JsonValue)
        ensures
            r@ == self@,
        decreases self,
    {
        match self {
            JsonValue::Null => JsonValue::Null,
            JsonValue::Bool(b) => JsonValue::Bool(*b),
            JsonValue::Number(n) => JsonValue::Number(n.clone()),
            JsonValue::Str(s) => JsonValue::Str(s.clone()),
            JsonValue::Array(items) => {
                let mut out: Vec<JsonValue> = Vec::new();
                let mut i: usize = 0;
                while i < items.len()
                    invariant
                        i <= items.len(),
                        out@.len() == i,
                        forall|j: int| 0 <= j < i ==> out@[j]@ == items@[j]@,
                    decreases items.len() - i,
                {
                    let c = items[i].deep_clone();
                    out.push(c);
                    i = i + 1;
                }
                proof {
                    lemma_array_view(*items);
                    lemma_array_view(out);
                    assert(items_view(out@) =~= items_view(items@));
                }
                JsonValue::Array(out)
            },
            JsonValue::Object(fields) => {
                let mut out: Vec<(String, JsonValue)> = Vec::new();
                let mut i: usize = 0;
                while i < fields.len()
                    invariant
                        i <= fields.len(),
                        out@.len() == i,
                        forall|j: int|
                            0 <= j < i ==> out@[j].0@ == fields@[j].0@ && out@[j].1@
                                == fields@[j].1@,
                    decreases fields.len() - i,
                {
                    let k = fields[i].0.clone();
                    let v = fields[i].1.deep_clone();
                    out.push((k, v));
                    i = i + 1;
                }
                proof {
                    lemma_object_view(*fields);
                    lemma_object_view(out);
                    assert(fields_view(out@) =~= fields_view(fields@));
                }
                JsonValue::Object(out)
            },
        }
    }

    /// Whether this value and `other` are the same JSON document.
    #[verifier::loop_isolation(false)]
    pub fn equals(&self, other: &JsonValue) -> (r: bool)
        ensures
            r == (self@ == other@),
        decreases self,
    {
        match (self, other) {
            (JsonValue::Null, JsonValue::Null) => true,
            (JsonValue::Bool(a), JsonValue::Bool(b)) => *a == *b,
            (JsonValue::Number(a), JsonValue::Number(b)) => *a == *b,
            (JsonValue::Str(a), JsonValue::Str(b)) => *a == *b,
            (JsonValue::Array(a), JsonValue::Array(b)) => {
                proof {
                    lemma_array_view(*a);
                    lemma_array_view(*b);
                }
                if a.len() != b.len() {
                    assert(items_view(a@).len() != items_view(b@).len());
                    return false;
                }
                let mut i: usize = 0;
                while i < a.len()
                    invariant
                        a.len() == b.len(),
                        i <= a.len(),
                        forall|j: int| 0 <= j < i ==> a@[j]@ == b@[j]@,
                    decreases a.len() - i,
                {
                    if !a[i].equals(&b[i]) {
                        assert(items_view(a@)[i as int] != items_view(b@)[i as int]);
                        return false;
                    }
                    i = i + 1;
                }
                assert(items_view(a@) =~= items_view(b@));
                true
            },
            (JsonValue::Object(a), JsonValue::Object(b)) => {
                proof {
                    lemma_object_view(*a);
                    lemma_object_view(*b);
                }
                if a.len() != b.len() {
                    assert(fields_view(a@).len() != fields_view(b@).len());
                    return false;
                }
                let mut i: usize = 0;
                while i < a.len()
                    invariant
                        a.len() == b.len(),
                        i <= a.len(),
                        forall|j: int| 0 <= j < i ==> a@[j].0@ == b@[j].0@ && a@[j].1@ == b@[j].1@,
                    decreases a.len() - i,
                {
                    if a[i].0 != b[i].0 {
                        assert(fields_view(a@)[i as int] != fields_view(b@)[i as int]);
                        return false;
                    }
                    if !a[i].1.equals(&b[i].1) {
                        assert(fields_view(a@)[i as int] != fields_view(b@)[i as int]);
                        return false;
                    }
                    i = i + 1;
                }
                assert(fields_view(a@) =~= fields_view(b@));
                true
            },
            _ => false,
        }
    }

    /// Sets member `key` to `value` when this is an object; other values are left unchanged.
    pub fn insert(&mut self, key: String, value: JsonValue)
        ensures
            final(self)@ == old(self)@.set(key@, value@),
    {
        let mut cur = JsonValue::Null;
        std::mem::swap(&mut cur, self);
        match cur {
            JsonValue::Object(mut fields) => {
                proof {
                    lemma_object_view(fields);
                }
                let ghost fv = fields_view(fields@);
                let found = find_field(&fields, key.as_str());
                match found {
                    Some(i) => {
                        fields.set(i, (key, value));
                        proof {
                            lemma_lookup_at(fv, key@, i as int);
                            assert(fields_view(fields@) =~= fv.update(i as int, (key@, value@)));
                        }
                    },
                    None => {
                        fields.push((key, value));
                        proof {
                            assert(fields_view(fields@) =~= fv.push((key@, value@)));
                        }
                    },
                }
                proof {
                    lemma_object_view(fields);
                }
                *self = JsonValue::Object(fields);
            },
            other => {
                *self = other;
            },
        }
    }

    /// Removes every member named `key` when this is an object, returning the
    /// value of the first such member.
    pub fn remove(&mut self, key: &str) -> (r: Option<JsonValue>)
        ensures
            final(self)@ == old(self)@.without(key@),
            match r {
                Some(v) => old(self)@.get(key@) == Some(v@),
                None => old(self)@.get(key@) is None,
            },
    {
        let mut cur = JsonValue::Null;
        std::mem::swap(&mut cur, self);
        match cur {
            JsonValue::Object(fields) => {
                proof {
                    lemma_object_view(fields);
                }
                let ghost fv = fields_view(fields@);
                let ghost pred = key_differs(key@);
                let mut kept: Vec<(String, JsonValue)> = Vec::new();
                let mut removed: Option<JsonValue> = None;
                let mut i: usize = 0;
                let n = fields.len();
                let mut rest = fields;
                proof {
                    assert(fv.take(0).filter(pred) =~= Seq::empty());
                }
                while i < n
                    invariant
                        n == fv.len(),
                        pred == key_differs(key@),
                        i <= n,
                        rest@.len() == n - i,
                        forall|j: int| 0 <= j < n - i ==> (#[trigger] rest@[j]).0@ == fv[i + j].0
                            && rest@[j].1@ == fv[i + j].1,
                        fields_view(kept@) == fv.take(i as int).filter(pred),
                        match removed {
                            Some(v) => has_key(fv, key@) && first_key_index(fv, key@) < i
                                && fv[first_key_index(fv, key@)].1 == v@,
                            None => forall|j: int| 0 <= j < i ==> fv[j].0 != key@,
                        },
                    decreases n - i,
                {
                    let ghost old_rest = rest@;
                    let item = rest.remove(0);
                    let ghost idx = i as int;
                    assert(old_rest[0].0@ == fv[idx].0 && old_rest[0].1@ == fv[idx].1);
                    assert(item.0@ == fv[idx].0 && item.1@ == fv[idx].1);
                    assert(forall|j: int| 0 <= j < n - i - 1 ==> rest@[j] == old_rest[j + 1]);
                    assert(fv.take(idx + 1) =~= fv.take(idx).push(fv[idx]));
                    proof {
                        fv.take(idx).lemma_filter_push(fv[idx], pred);
                    }
                    if str_eq(item.0.as_str(), key) {
                        proof {
                            assert(!pred(fv[idx]));
                            assert(fv.take(idx + 1).filter(pred) == fv.take(idx).filter(pred));
                        }
                        if removed.is_none() {
                            proof {
                                assert(is_first_key(fv, key@, idx));
                                lemma_lookup_at(fv, key@, idx);
                            }
                            removed = Some(item.1);
                        }
                    } else {
                        proof {
                            assert(pred(fv[idx]));
                        }
                        kept.push(item);
                        proof {
                            assert(fields_view(kept@) =~= fv.take(idx).filter(pred).push(fv[idx]));
                        }
                    }
                    i = i + 1;
                }
                proof {
                    assert(fv.take(n as int) =~= fv);
                    lemma_object_view(kept);
                    if removed.is_none() {
                        assert forall|k: int| !is_first_key(fv, key@, k) by {}
                    } else {
                        lemma_lookup_at(fv, key@, first_key_index(fv, key@));
                    }
                }
                *self = JsonValue::Object(kept);
                removed
            },
            other => {
                *self = other;
                None
            },
        }
    }

    /// This object with member `key` set to `value` (builder style).
    pub fn with(self, key: &str, value: JsonValue) -> (r: JsonValue)
        ensures
            r@ == self@.set(key@, value@),
    {
        let mut v = self;
        v.insert(key.to_owned(), value);
        v
    }
}

/// The value of a sequence of decimal digits.
pub open spec fn digits_value(s: Seq<char>) -> int
    decreases s.len(),
{
    if s.len() == 0 {
        0
    } else {
        digits_value(s.drop_last()) * 10 + ((s.last() as u32) as int - 48)
    }
}

/// Whether `s` is a non-empty sequence of decimal digits.
pub open spec fn all_digits(s: Seq<char>) -> bool {
    s.len() > 0 && forall|i: int| 0 <= i < s.len() ==> '0' <= #[trigger] s[i] && s[i] <= '9'
}

/// The integer written by a JSON number's text, if it is an integer: digits
/// with an optional leading minus sign.
pub open spec fn integer_value(s: Seq<char>) -> Option<int> {
    if all_digits(s) {
        Some(digits_value(s))
    } else if s.len() > 1 && s[0] == '-' && all_digits(s.drop_first()) {
        Some(-digits_value(s.drop_first()))
    } else {
        None
    }
}

/// The value of a JSON document as a 64-bit signed integer, when it is an
/// integer number in range.
pub open spec fn json_i64(j: Json) -> Option<i64> {
    match j {
        Json::Number(t) => match integer_value(t) {
            Some(v) => if i64::MIN <= v <= i64::MAX {
                Some(v as i64)
            } else {
                None
            },
            None => None,
        },
        _ => None,
    }
}

/// Appending a digit does not lower the value.
proof fn lemma_digits_grow(s: Seq<char>, i: int)
    requires
        all_digits(s),
        0 <= i <= s.len(),
    ensures
        digits_value(s) >= digits_value(s.take(i)) >= 0,
    decreases s.len() - i,
{
    if i < s.len() {
        lemma_digits_grow(s, i + 1);
        assert(s.take(i + 1).drop_last() =~= s.take(i));
        assert(s.take(i + 1).last() == s[i]);
        lemma_digits_nonneg(s.take(i));
    } else {
        assert(s.take(i) =~= s);
        lemma_digits_nonneg(s);
    }
}

proof fn lemma_digits_nonneg(s: Seq<char>)
    requires
        forall|i: int| 0 <= i < s.len() ==> '0' <= #[trigger] s[i] && s[i] <= '9',
    ensures
        digits_value(s) >= 0,
    decreases s.len(),
{
    if s.len() > 0 {
        lemma_digits_nonneg(s.drop_last());
    }
}

/// The value of the digits of `s` from position `from`, when it stays
/// within `u64`; `None` when `s` has no digit there, a character that is
/// not a digit, or a larger value.
fn digits_u64(s: &str, from: usize) -> (r: Option<u64>)
    requires
        from <= s@.len(),
    ensures
        match r {
            Some(v) => all_digits(s@.skip(from as int)) && v == digits_value(s@.skip(from as int)),
            None => !all_digits(s@.skip(from as int)) || digits_value(s@.skip(from as int)) > u64::MAX,
        },
{
    let n = s.unicode_len();
    let ghost t = s@.skip(from as int);
    if from == n {
        return None;
    }
    let mut acc: u64 = 0;
    let mut i: usize = from;
    while i < n
        invariant
            n == s@.len(),
            from < n,
            t == s@.skip(from as int),
            from <= i <= n,
            forall|j: int| 0 <= j < i - from ==> '0' <= #[trigger] t[j] && t[j] <= '9',
            acc == digits_value(t.take(i - from)),
        decreases n - i,
    {
        let c = s.get_char(i);
        assert(c == t[i - from]);
        if !('0' <= c && c <= '9') {
            return None;
        }
        let d = (c as u32 - 48) as u64;
        assert(t.take(i - from + 1).drop_last() =~= t.take(i - from));
        assert(t.take(i - from + 1).last() == c);
        if acc > (u64::MAX - d) / 10 {
            proof {
                assert(digits_value(t.take(i - from + 1)) == acc * 10 + d);
                assert(acc * 10 + d > u64::MAX) by (nonlinear_arith)
                    requires
                        acc > (u64::MAX - d) / 10,
                        d <= 9,
                ;
                if all_digits(t) {
                    lemma_digits_grow(t, i - from + 1);
                }
            }
            return None;
        }
        acc = acc * 10 + d;
        i = i + 1;
    }
    assert(t.take(n - from) =~= t);
    Some(acc)
}

impl JsonValue {
    /// This value as a 64-bit signed integer, when it is an integer number
    /// in range.
    pub fn as_i64(&self) -> (r: Option<i64>)
        ensures
            r == json_i64(self@),
    {
        match self {
            JsonValue::Number(t) => {
                let s = t.as_str();
                let n = s.unicode_len();
                if n > 0 && s.get_char(0) == '-' {
                    proof {
                        assert(s@.skip(0) =~= s@);
                        assert(s@.drop_first() =~= s@.skip(1));
                        assert(!all_digits(s@)) by {
                            assert(!('0' <= s@[0] && s@[0] <= '9'));
                        }
                    }
                    if n == 1 {
                        return None;
                    }
                    match digits_u64(s, 1) {
                        Some(v) => if v <= 9223372036854775808u64 {
                            if v == 9223372036854775808u64 {
                                Some(i64::MIN)
                            } else {
                                Some(0i64 - (v as i64))
                            }
                        } else {
                            None
                        },
                        None => None,
                    }
                } else {
                    proof {
                        assert(s@.skip(0) =~= s@);
                    }
                    match digits_u64(s, 0) {
                        Some(v) => if v <= 9223372036854775807u64 {
                            Some(v as i64)
                        } else {
                            None
                        },
                        None => None,
                    }
                }
            },
            _ => None,
        }
    }
}

impl Clone for JsonValue {
    /// A deep copy.
    fn clone(&self) -> (r: Self)
        ensures
            r@ == self@,
    {
        self.deep_clone()
    }
}

} // verus!
