//! RFC 7644 PATCH operations on JSON documents.
//!
//! An operation is an object with an `op` member (`add`, `remove` or
//! `replace`, in any ASCII case), an optional `path` and an optional
//! `value`. Paths are attribute names, possibly dotted (`name.givenName`)
//! or prefixed by a schema URN, or filtered paths into multi-valued
//! attributes (`emails[type eq "work"].value`). A single value set on a
//! multi-valued attribute (`emails`, `phoneNumbers`, `addresses`, `groups`,
//! `members`) is appended to it. Dotted paths create missing objects and
//! refuse to pass through other values. Read-only attributes (`id`, and
//! `created`, `resourceType` and `location` under `meta`) cannot be
//! patched.

use vstd::prelude::*;
use crate::json::{
    Json, JsonValue, fields_view, items_view, lemma_array_view, lemma_get_set_other, lemma_get_set_same, lemma_object_view,
};
use crate::text::{
    ascii_lower, char_is_alphanumeric, concat, contains_char, contains_seq, contains_str, ends_with,
    has_char, is_alphanumeric, lemma_split_nonempty, lower_ends_with, lower_equals,
    lower_starts_with, split_char, split_on, starts_with, str_eq, string_views,
};

verus! {

/// Whether every character of `s` is alphanumeric, `.` or `_`.
pub open spec fn path_chars_ok(s: Seq<char>) -> bool {
    forall|i: int| 0 <= i < s.len() ==> char_is_alphanumeric(s[i]) || s[i] == '.' || s[i] == '_'
}

/// The prefix of SCIM schema URNs.
pub open spec fn schema_urn_prefix() -> Seq<char> {
    "urn:ietf:params:scim:schemas:"@
}

/// The attribute part of a path: what follows the last `:` when the path
/// carries a schema URN, the whole path otherwise.
pub open spec fn attribute_part(path: Seq<char>) -> Seq<char> {
    if has_char(path, ':') && contains_seq(path, schema_urn_prefix()) {
        split_on(path, ':').last()
    } else {
        path
    }
}

/// Whether `path` is a plain SCIM attribute path.
pub open spec fn plain_scim_path(path: Seq<char>) -> bool {
    path.len() > 0 && attribute_part(path).len() > 0 && path_chars_ok(attribute_part(path))
}

/// Whether `path` names a read-only attribute.
pub open spec fn readonly_path(path: Seq<char>) -> bool {
    let p = ascii_lower(path);
    ||| p == "id"@
    ||| p == "meta.created"@
    ||| p == "meta.resourcetype"@
    ||| p == "meta.location"@
    ||| (starts_with(p, "meta."@) && (ends_with(p, ".created"@) || ends_with(p, ".resourcetype"@)
        || ends_with(p, ".location"@)))
}

/// Whether `s` is an attribute name: non-empty, of alphanumeric characters
/// and `_`.
pub open spec fn name_ok(s: Seq<char>) -> bool {
    s.len() > 0 && forall|i: int| 0 <= i < s.len() ==> char_is_alphanumeric(#[trigger] s[i]) || s[i] == '_'
}

/// A filtered path `attr[sub eq "value"]`, possibly followed by `.name`:
/// it selects the elements of the array `attr` whose string member `sub`
/// is `value`, and in them the member `name` when there is one.
pub struct FilterPath {
    pub attr: Seq<char>,
    pub sub: Seq<char>,
    pub value: Seq<char>,
    pub rest: Option<Seq<char>>,
}

/// Whether `q` is text in double quotes.
pub open spec fn quoted(q: Seq<char>) -> bool {
    q.len() >= 2 && q[0] == '"' && q[q.len() - 1] == '"'
}

/// Reads a filtered path: one `[`, one `]`, a condition of three words
/// separated by single spaces (an attribute name, `eq` in any ASCII case,
/// and a quoted value without spaces), and after `]` nothing or `.` and an
/// attribute name.
pub open spec fn parse_filter_path(path: Seq<char>) -> Option<FilterPath> {
    let a = split_on(path, '[');
    if a.len() != 2 {
        None
    } else {
        let b = split_on(a[1], ']');
        if b.len() != 2 {
            None
        } else {
            let c = split_on(b[0], ' ');
            if c.len() != 3 || !name_ok(a[0]) || !name_ok(c[0]) || ascii_lower(c[1]) != "eq"@ || !quoted(c[2]) {
                None
            } else {
                let value = c[2].subrange(1, c[2].len() - 1);
                if b[1].len() == 0 {
                    Some(FilterPath { attr: a[0], sub: c[0], value, rest: None })
                } else if b[1][0] == '.' && name_ok(b[1].drop_first()) {
                    Some(FilterPath { attr: a[0], sub: c[0], value, rest: Some(b[1].drop_first()) })
                } else {
                    None
                }
            }
        }
    }
}

/// Whether an array element is selected by the filter.
pub open spec fn element_matches(e: Json, f: FilterPath) -> bool {
    e.get_str(f.sub) == Some(f.value)
}

/// The elements after setting `value` in those the filter selects: the
/// member `rest` of each, or each whole element when there is no `rest`.
pub open spec fn set_in_matches(items: Seq<Json>, f: FilterPath, value: Json) -> Seq<Json>
    decreases items.len(),
{
    if items.len() == 0 {
        Seq::empty()
    } else {
        let e = items.last();
        set_in_matches(items.drop_last(), f, value).push(
            if element_matches(e, f) {
                match f.rest {
                    Some(n) => e.set(n, value),
                    None => value,
                }
            } else {
                e
            },
        )
    }
}

/// The elements after removing, from those the filter selects, the member
/// `rest`, or the whole element when there is no `rest`.
pub open spec fn remove_in_matches(items: Seq<Json>, f: FilterPath) -> Seq<Json>
    decreases items.len(),
{
    if items.len() == 0 {
        Seq::empty()
    } else {
        let e = items.last();
        let r = remove_in_matches(items.drop_last(), f);
        if element_matches(e, f) {
            match f.rest {
                Some(n) => r.push(e.without(n)),
                None => r,
            }
        } else {
            r.push(e)
        }
    }
}

/// The document after setting `value` through a filtered path; unchanged
/// when the attribute is not an array.
pub open spec fn set_filtered(data: Json, f: FilterPath, value: Json) -> Json {
    match data.get(f.attr) {
        Some(Json::Array(items)) => data.set(f.attr, Json::Array(set_in_matches(items, f, value))),
        _ => data,
    }
}

/// The document after removing through a filtered path; unchanged when the
/// attribute is not an array.
pub open spec fn remove_filtered(data: Json, f: FilterPath) -> Json {
    match data.get(f.attr) {
        Some(Json::Array(items)) => data.set(f.attr, Json::Array(remove_in_matches(items, f))),
        _ => data,
    }
}

/// Whether `path` is a valid SCIM attribute path: a plain path (non-empty,
/// and its attribute part after a schema URN, if any, non-empty and made of
/// alphanumeric characters, `.` and `_`), or a filtered path.
pub open spec fn valid_scim_path(path: Seq<char>) -> bool {
    plain_scim_path(path) || parse_filter_path(path) is Some
}

/// The multi-valued attributes of the core schemas, to which a single
/// value is appended.
pub open spec fn is_multivalued(attr: Seq<char>) -> bool {
    attr == "emails"@ || attr == "phoneNumbers"@ || attr == "addresses"@ || attr == "groups"@ || attr == "members"@
}

/// The document after setting the top-level attribute `attr` to `value`.
/// A multi-valued attribute takes an array value as it is; a single value
/// is appended to its array, or becomes an array of one when it has none.
/// A document that is not an object is unchanged.
pub open spec fn set_simple(data: Json, attr: Seq<char>, value: Json) -> Json {
    if is_multivalued(attr) {
        match (data.get(attr), value) {
            (_, Json::Array(_)) => data.set(attr, value),
            (Some(Json::Array(items)), _) => data.set(attr, Json::Array(items.push(value))),
            _ => data.set(attr, Json::Array(seq![value])),
        }
    } else {
        data.set(attr, value)
    }
}

/// The document after setting the dotted path `parts[i..]` to `value`,
/// creating missing intermediate objects. A non-object on the way fails:
/// `Err(true)` when it is the value that should hold the last part,
/// `Err(false)` when it lies further up.
pub open spec fn set_nested(cur: Json, parts: Seq<Seq<char>>, i: int, value: Json) -> Result<Json, bool>
    decreases parts.len() - i,
{
    if i + 1 >= parts.len() {
        match cur {
            Json::Object(_) => Ok(cur.set(parts[i], value)),
            _ => Err(true),
        }
    } else {
        match cur {
            Json::Object(_) => {
                let child = match cur.get(parts[i]) {
                    Some(c) => c,
                    None => Json::Object(Seq::empty()),
                };
                match set_nested(child, parts, i + 1, value) {
                    Ok(c) => Ok(cur.set(parts[i], c)),
                    Err(t) => Err(t),
                }
            },
            _ => Err(false),
        }
    }
}

/// The document after removing the dotted path `parts[depth..]`; a
/// missing member on the way leaves it unchanged, and a non-object above
/// the last part fails (`None`).
pub open spec fn remove_nested(cur: Json, parts: Seq<Seq<char>>, depth: int) -> Option<Json>
    decreases parts.len() - depth,
{
    if depth < 0 || depth + 1 >= parts.len() {
        if 0 <= depth < parts.len() {
            Some(cur.without(parts[depth]))
        } else {
            Some(cur)
        }
    } else {
        match cur {
            Json::Object(_) => match cur.get(parts[depth]) {
                Some(child) => match remove_nested(child, parts, depth + 1) {
                    Some(c) => Some(cur.set(parts[depth], c)),
                    None => None,
                },
                None => Some(cur),
            },
            _ => None,
        }
    }
}

/// The outcome of setting `path` to `value`.
pub open spec fn set_at_path(data: Json, path: Seq<char>, value: Json) -> Result<Json, Seq<char>> {
    if !valid_scim_path(path) {
        Err("Invalid SCIM path: "@ + path)
    } else if parse_filter_path(path) is Some {
        Ok(set_filtered(data, parse_filter_path(path)->0, value))
    } else if !has_char(path, '.') {
        Ok(set_simple(data, path, value))
    } else {
        match set_nested(data, split_on(path, '.'), 0, value) {
            Ok(d) => Ok(d),
            Err(true) => Err("Cannot set value at path '"@ + path + "' - target is not an object"@),
            Err(false) => Err("Cannot navigate path '"@ + path + "' - intermediate value is not an object"@),
        }
    }
}

/// The outcome of removing `path`.
pub open spec fn remove_at_path(data: Json, path: Seq<char>) -> Result<Json, Seq<char>> {
    if !valid_scim_path(path) {
        Err("Invalid SCIM path: "@ + path)
    } else if parse_filter_path(path) is Some {
        Ok(remove_filtered(data, parse_filter_path(path)->0))
    } else if !has_char(path, '.') {
        Ok(data.without(path))
    } else {
        match remove_nested(data, split_on(path, '.'), 0) {
            Some(d) => Ok(d),
            None => Err("Cannot navigate path '"@ + path + "' - intermediate value is not an object"@),
        }
    }
}

/// The document after setting each member of `fields` in turn.
pub open spec fn merge_fields(data: Json, fields: Seq<(Seq<char>, Json)>) -> Json
    decreases fields.len(),
{
    if fields.len() == 0 {
        data
    } else {
        merge_fields(data, fields.drop_last()).set(fields.last().0, fields.last().1)
    }
}

/// The document after merging the members of `value` into it, when both are objects.
pub open spec fn merge_object(data: Json, value: Json) -> Json {
    match (data, value) {
        (Json::Object(_), Json::Object(fs)) => merge_fields(data, fs),
        _ => data,
    }
}

/// Whether `j` is the last position of a member named `k` in `fields`.
pub open spec fn last_member_at(fields: Seq<(Seq<char>, Json)>, k: Seq<char>, j: int) -> bool {
    &&& 0 <= j < fields.len()
    &&& fields[j].0 == k
    &&& forall|j2: int| j < j2 < fields.len() ==> fields[j2].0 != k
}

proof fn lemma_merged_members(data: Json, fields: Seq<(Seq<char>, Json)>, k: Seq<char>)
    requires
        data is Object,
    ensures
        merge_fields(data, fields) is Object,
        (forall|j: int| 0 <= j < fields.len() ==> fields[j].0 != k) ==> merge_fields(data, fields).get(k) == data.get(k),
        forall|j: int| #[trigger] last_member_at(fields, k, j) ==> merge_fields(data, fields).get(k) == Some(fields[j].1),
    decreases fields.len(),
{
    if fields.len() > 0 {
        let init = fields.drop_last();
        let last = fields.last();
        lemma_merged_members(data, init, k);
        let prev = merge_fields(data, init);
        lemma_get_set_same(prev, last.0, last.1);
        if last.0 != k {
            lemma_get_set_other(prev, last.0, last.1, k);
            assert forall|j: int| #[trigger] last_member_at(fields, k, j) implies merge_fields(data, fields).get(k) == Some(fields[j].1) by {
                assert(last_member_at(init, k, j));
            }
        } else {
            assert forall|j: int| #[trigger] last_member_at(fields, k, j) implies merge_fields(data, fields).get(k) == Some(fields[j].1) by {
                assert(j == fields.len() - 1);
            }
        }
    }
}

/// A write without a path (`add` or `replace`) of an object value into an
/// object document succeeds and merges: afterwards each member named in the
/// value holds the value's last member of that name, and every member the
/// value does not name is as it was.
pub proof fn law_pathless_write_merges(data: Json, operation: Json, k: Seq<char>)
    requires
        data is Object,
        operation.get_str("op"@) is Some,
        ascii_lower(operation.get_str("op"@)->0) == "add"@ || ascii_lower(operation.get_str("op"@)->0) == "replace"@,
        operation.get_str("path"@) is None,
        operation.get("value"@) matches Some(Json::Object(_)),
    ensures
        patch_op_result(data, operation) is Ok,
        patch_op_result(data, operation)->Ok_0 is Object,
        (forall|j: int|
            0 <= j < operation.get("value"@)->0->Object_0.len() ==> operation.get("value"@)->0->Object_0[j].0 != k)
            ==> patch_op_result(data, operation)->Ok_0.get(k) == data.get(k),
        forall|j: int|
            #[trigger] last_member_at(operation.get("value"@)->0->Object_0, k, j) ==> patch_op_result(data, operation)->Ok_0.get(k)
                == Some(operation.get("value"@)->0->Object_0[j].1),
{
    let fs = operation.get("value"@)->0->Object_0;
    lemma_merged_members(data, fs, k);
    reveal_strlit("add");
    reveal_strlit("remove");
    reveal_strlit("replace");
    let v = operation.get("value"@)->0;
    assert(v == Json::Object(fs));
    assert(merge_object(data, v) == merge_fields(data, fs));
    assert(put_value(data, None, v) == Ok::<Json, Seq<char>>(merge_fields(data, fs)));
    assert("add"@.len() == 3 && "replace"@.len() == 7 && "remove"@.len() == 6);
    assert(patch_op_result(data, operation) == Ok::<Json, Seq<char>>(merge_fields(data, fs)));
    assert forall|j: int| #[trigger] last_member_at(fs, k, j) implies patch_op_result(data, operation)->Ok_0.get(k)
        == Some(fs[j].1) by {}
}

/// The outcome of an `add` or `replace` operation.
pub open spec fn put_value(data: Json, path: Option<Seq<char>>, value: Json) -> Result<Json, Seq<char>> {
    match path {
        Some(p) => set_at_path(data, p, value),
        None => Ok(merge_object(data, value)),
    }
}

/// The outcome of one PATCH operation on a document.
pub open spec fn patch_op_result(data: Json, operation: Json) -> Result<Json, Seq<char>> {
    match operation.get_str("op"@) {
        None => Err("PATCH operation must have 'op' field"@),
        Some(op) => {
            let path = operation.get_str("path"@);
            let value = operation.get("value"@);
            if path is Some && readonly_path(path->0) {
                Err("Cannot modify readonly attribute: "@ + path->0)
            } else if ascii_lower(op) == "add"@ {
                match value {
                    None => Err("ADD operation requires a value"@),
                    Some(v) => put_value(data, path, v),
                }
            } else if ascii_lower(op) == "remove"@ {
                match path {
                    Some(p) => remove_at_path(data, p),
                    None => Ok(data),
                }
            } else if ascii_lower(op) == "replace"@ {
                match value {
                    None => Err("REPLACE operation requires a value"@),
                    Some(v) => put_value(data, path, v),
                }
            } else {
                Err("Unsupported PATCH operation: "@ + op)
            }
        },
    }
}

/// The outcome of a sequence of PATCH operations, stopping at the first error.
pub open spec fn patch_ops_result(data: Json, ops: Seq<Json>) -> Result<Json, Seq<char>>
    decreases ops.len(),
{
    if ops.len() == 0 {
        Ok(data)
    } else {
        match patch_ops_result(data, ops.drop_last()) {
            Ok(d) => patch_op_result(d, ops.last()),
            Err(e) => Err(e),
        }
    }
}

/// Whether `path` is a plain SCIM attribute path: non-empty, and its
/// attribute part (after a schema URN, if any) non-empty and made of
/// alphanumeric characters, `.` and `_`.
fn is_plain_scim_path(path: &str) -> (r: bool)
    ensures
        r == plain_scim_path(path@),
{
    if path.unicode_len() == 0 {
        return false;
    }
    let actual: String = if contains_char(path, ':') && contains_str(path, "urn:ietf:params:scim:schemas:") {
        let parts = split_char(path, ':');
        proof {
            lemma_split_nonempty(path@, ':');
            assert(string_views(parts@)[parts@.len() - 1] == parts@[parts@.len() - 1]@);
        }
        parts[parts.len() - 1].clone()
    } else {
        path.to_owned()
    };
    assert(actual@ == attribute_part(path@));
    let n = actual.as_str().unicode_len();
    if n == 0 {
        return false;
    }
    let mut i: usize = 0;
    while i < n
        invariant
            n == actual@.len(),
            actual@ == attribute_part(path@),
            path@.len() > 0,
            i <= n,
            forall|j: int| 0 <= j < i ==> char_is_alphanumeric(actual@[j]) || actual@[j] == '.' || actual@[j] == '_',
        decreases n - i,
    {
        let c = actual.as_str().get_char(i);
        if !(is_alphanumeric(c) || c == '.' || c == '_') {
            assert(!(char_is_alphanumeric(actual@[i as int]) || actual@[i as int] == '.' || actual@[i as int] == '_'));
            return false;
        }
        i = i + 1;
    }
    true
}

/// Whether `s` is an attribute name.
fn is_name(s: &str) -> (r: bool)
    ensures
        r == name_ok(s@),
{
    let n = s.unicode_len();
    if n == 0 {
        return false;
    }
    let mut i: usize = 0;
    while i < n
        invariant
            n == s@.len(),
            i <= n,
            forall|j: int| 0 <= j < i ==> char_is_alphanumeric(#[trigger] s@[j]) || s@[j] == '_',
        decreases n - i,
    {
        let c = s.get_char(i);
        if !(is_alphanumeric(c) || c == '_') {
            return false;
        }
        i = i + 1;
    }
    true
}

/// The executable form of a filtered path.
pub struct FilterPathText {
    pub attr: String,
    pub sub: String,
    pub value: String,
    pub rest: Option<String>,
}

impl FilterPathText {
    /// The model of this filtered path.
    pub open spec fn view(&self) -> FilterPath {
        FilterPath {
            attr: self.attr@,
            sub: self.sub@,
            value: self.value@,
            rest: match self.rest {
                Some(r) => Some(r@),
                None => None,
            },
        }
    }
}

/// Reads a filtered path.
pub fn parse_filter(path: &str) -> (r: Option<FilterPathText>)
    ensures
        match r {
            Some(f) => parse_filter_path(path@) == Some(f@),
            None => parse_filter_path(path@) is None,
        },
{
    let a = split_char(path, '[');
    if a.len() != 2 {
        return None;
    }
    proof {
        assert(string_views(a@)[1] == a@[1]@);
        assert(string_views(a@)[0] == a@[0]@);
    }
    let b = split_char(a[1].as_str(), ']');
    if b.len() != 2 {
        return None;
    }
    proof {
        assert(string_views(b@)[1] == b@[1]@);
        assert(string_views(b@)[0] == b@[0]@);
    }
    let c = split_char(b[0].as_str(), ' ');
    if c.len() != 3 {
        return None;
    }
    proof {
        assert(string_views(c@)[0] == c@[0]@);
        assert(string_views(c@)[1] == c@[1]@);
        assert(string_views(c@)[2] == c@[2]@);
    }
    if !is_name(a[0].as_str()) || !is_name(c[0].as_str()) || !lower_equals(c[1].as_str(), "eq") {
        return None;
    }
    let q = c[2].as_str();
    let qn = q.unicode_len();
    if qn < 2 || q.get_char(0) != '"' || q.get_char(qn - 1) != '"' {
        return None;
    }
    let value = q.substring_char(1, qn - 1).to_string();
    let tail = b[1].as_str();
    let tn = tail.unicode_len();
    if tn == 0 {
        return Some(FilterPathText { attr: a[0].clone(), sub: c[0].clone(), value, rest: None });
    }
    if tail.get_char(0) != '.' {
        return None;
    }
    let name = tail.substring_char(1, tn);
    proof {
        assert(name@ == tail@.drop_first());
    }
    if !is_name(name) {
        return None;
    }
    Some(FilterPathText { attr: a[0].clone(), sub: c[0].clone(), value, rest: Some(name.to_string()) })
}

/// Whether an array element is selected by the filter.
fn matches_filter(e: &JsonValue, f: &FilterPathText) -> (r: bool)
    ensures
        r == element_matches(e@, f@),
{
    match e.get_str(f.sub.as_str()) {
        Some(s) => str_eq(s.as_str(), f.value.as_str()),
        None => false,
    }
}

/// Sets `value` in the elements the filter selects.
fn set_in_matching(items: &Vec<JsonValue>, f: &FilterPathText, value: &JsonValue) -> (r: Vec<JsonValue>)
    ensures
        items_view(r@) == set_in_matches(items_view(items@), f@, value@),
{
    let ghost iv = items_view(items@);
    let mut out: Vec<JsonValue> = Vec::new();
    let mut i: usize = 0;
    assert(iv.take(0) =~= Seq::<Json>::empty());
    assert(items_view(out@) =~= Seq::<Json>::empty());
    while i < items.len()
        invariant
            iv == items_view(items@),
            i <= items@.len(),
            items_view(out@) == set_in_matches(iv.take(i as int), f@, value@),
        decreases items@.len() - i,
    {
        assert(iv.take(i + 1).drop_last() =~= iv.take(i as int));
        assert(iv.take(i + 1).last() == items@[i as int]@);
        let e = &items[i];
        let next = if matches_filter(e, f) {
            match &f.rest {
                Some(n) => {
                    let mut x = e.deep_clone();
                    x.insert(n.clone(), value.deep_clone());
                    x
                },
                None => value.deep_clone(),
            }
        } else {
            e.deep_clone()
        };
        let ghost before = out@;
        out.push(next);
        assert(items_view(out@) =~= items_view(before).push(next@));
        i = i + 1;
    }
    assert(iv.take(items@.len() as int) =~= iv);
    out
}

/// Removes from the elements the filter selects.
fn remove_in_matching(items: &Vec<JsonValue>, f: &FilterPathText) -> (r: Vec<JsonValue>)
    ensures
        items_view(r@) == remove_in_matches(items_view(items@), f@),
{
    let ghost iv = items_view(items@);
    let mut out: Vec<JsonValue> = Vec::new();
    let mut i: usize = 0;
    assert(iv.take(0) =~= Seq::<Json>::empty());
    assert(items_view(out@) =~= Seq::<Json>::empty());
    while i < items.len()
        invariant
            iv == items_view(items@),
            i <= items@.len(),
            items_view(out@) == remove_in_matches(iv.take(i as int), f@),
        decreases items@.len() - i,
    {
        assert(iv.take(i + 1).drop_last() =~= iv.take(i as int));
        assert(iv.take(i + 1).last() == items@[i as int]@);
        let e = &items[i];
        let ghost before = out@;
        if matches_filter(e, f) {
            match &f.rest {
                Some(n) => {
                    let mut x = e.deep_clone();
                    let _ = x.remove(n.as_str());
                    out.push(x);
                    assert(items_view(out@) =~= items_view(before).push(x@));
                },
                None => {},
            }
        } else {
            let x = e.deep_clone();
            out.push(x);
            assert(items_view(out@) =~= items_view(before).push(x@));
        }
        i = i + 1;
    }
    assert(iv.take(items@.len() as int) =~= iv);
    out
}

/// Sets `value` through a filtered path.
fn set_filtered_value(data: &mut JsonValue, f: &FilterPathText, value: &JsonValue)
    ensures
        final(data)@ == set_filtered(old(data)@, f@, value@),
{
    let updated = match data.get(f.attr.as_str()) {
        Some(JsonValue::Array(items)) => {
            proof {
                lemma_array_view(*items);
            }
            Some(set_in_matching(items, f, value))
        },
        _ => None,
    };
    match updated {
        Some(v) => {
            proof {
                lemma_array_view(v);
            }
            data.insert(f.attr.clone(), JsonValue::Array(v));
        },
        None => {},
    }
}

/// Removes through a filtered path.
fn remove_filtered_value(data: &mut JsonValue, f: &FilterPathText)
    ensures
        final(data)@ == remove_filtered(old(data)@, f@),
{
    let updated = match data.get(f.attr.as_str()) {
        Some(JsonValue::Array(items)) => {
            proof {
                lemma_array_view(*items);
            }
            Some(remove_in_matching(items, f))
        },
        _ => None,
    };
    match updated {
        Some(v) => {
            proof {
                lemma_array_view(v);
            }
            data.insert(f.attr.clone(), JsonValue::Array(v));
        },
        None => {},
    }
}

/// Whether `attr` is one of the multi-valued attributes.
fn is_multivalued_attribute(attr: &str) -> (r: bool)
    ensures
        r == is_multivalued(attr@),
{
    str_eq(attr, "emails") || str_eq(attr, "phoneNumbers") || str_eq(attr, "addresses") || str_eq(attr, "groups")
        || str_eq(attr, "members")
}

/// Sets the top-level attribute `attr`, appending a single value to a
/// multi-valued attribute.
fn set_simple_value(data: &mut JsonValue, attr: &str, value: JsonValue)
    ensures
        final(data)@ == set_simple(old(data)@, attr@, value@),
{
    if !is_multivalued_attribute(attr) {
        data.insert(attr.to_owned(), value);
        return;
    }
    if value.as_array().is_some() {
        data.insert(attr.to_owned(), value);
        return;
    }
    let appended = match data.get(attr) {
        Some(JsonValue::Array(items)) => {
            let mut v: Vec<JsonValue> = Vec::new();
            let mut i: usize = 0;
            while i < items.len()
                invariant
                    i <= items@.len(),
                    v@.len() == i,
                    forall|j: int| 0 <= j < i ==> (#[trigger] v@[j])@ == items@[j]@,
                decreases items@.len() - i,
            {
                v.push(items[i].deep_clone());
                i = i + 1;
            }
            proof {
                lemma_array_view(*items);
            }
            assert(items_view(v@) =~= items_view(items@));
            Some(v)
        },
        _ => None,
    };
    match appended {
        Some(mut v) => {
            let ghost before = v@;
            let ghost vv = value@;
            v.push(value);
            proof {
                lemma_array_view(v);
            }
            assert(items_view(v@) =~= items_view(before).push(vv));
            data.insert(attr.to_owned(), JsonValue::Array(v));
        },
        None => {
            let ghost vv = value@;
            let mut v: Vec<JsonValue> = Vec::new();
            v.push(value);
            proof {
                lemma_array_view(v);
            }
            assert(items_view(v@) =~= seq![vv]);
            data.insert(attr.to_owned(), JsonValue::Array(v));
        },
    }
}

/// Whether `path` is a valid SCIM attribute path: a plain path or a
/// filtered one.
pub fn is_valid_scim_path(path: &str) -> (r: bool)
    ensures
        r == valid_scim_path(path@),
{
    is_plain_scim_path(path) || parse_filter(path).is_some()
}

/// Whether `path` names a read-only attribute (compared in ASCII lower case).
pub fn is_readonly_attribute(path: &str) -> (r: bool)
    ensures
        r == readonly_path(path@),
{
    if lower_equals(path, "id") || lower_equals(path, "meta.created") || lower_equals(
        path,
        "meta.resourcetype",
    ) || lower_equals(path, "meta.location") {
        return true;
    }
    lower_starts_with(path, "meta.") && (lower_ends_with(path, ".created") || lower_ends_with(
        path,
        ".resourcetype",
    ) || lower_ends_with(path, ".location"))
}

/// Sets the dotted path `parts[i..]` of `cur` to `value`.
pub fn set_nested_value(cur: &JsonValue, parts: &Vec<String>, i: usize, value: JsonValue) -> (r: Result<JsonValue, bool>)
    requires
        i < parts@.len(),
    ensures
        match set_nested(cur@, string_views(parts@), i as int, value@) {
            Ok(d) => r matches Ok(v) && v@ == d,
            Err(t) => r == Err::<JsonValue, bool>(t),
        },
    decreases parts@.len() - i,
{
    if !cur.is_object() {
        return Err(i >= parts.len() - 1);
    }
    if i >= parts.len() - 1 {
        let mut out = cur.deep_clone();
        out.insert(parts[i].clone(), value);
        Ok(out)
    } else {
        let child = match cur.get(parts[i].as_str()) {
            Some(c) => c.deep_clone(),
            None => JsonValue::object(),
        };
        let nested = set_nested_value(&child, parts, i + 1, value)?;
        let mut out = cur.deep_clone();
        out.insert(parts[i].clone(), nested);
        Ok(out)
    }
}

/// Removes the dotted path `parts[depth..]` from `cur`.
pub fn remove_nested_value(cur: &JsonValue, parts: &Vec<String>, depth: usize) -> (r: Option<JsonValue>)
    ensures
        match remove_nested(cur@, string_views(parts@), depth as int) {
            Some(d) => r matches Some(v) && v@ == d,
            None => r is None,
        },
    decreases parts@.len() - depth,
{
    if depth >= parts.len() {
        Some(cur.deep_clone())
    } else if depth == parts.len() - 1 {
        let mut out = cur.deep_clone();
        let _ = out.remove(parts[depth].as_str());
        Some(out)
    } else if !cur.is_object() {
        None
    } else {
        match cur.get(parts[depth].as_str()) {
            Some(child) => {
                let nested = remove_nested_value(child, parts, depth + 1)?;
                let mut out = cur.deep_clone();
                out.insert(parts[depth].clone(), nested);
                Some(out)
            },
            None => Some(cur.deep_clone()),
        }
    }
}

/// Sets the value at `path`, which may be dotted.
pub fn set_value_at_path(data: &mut JsonValue, path: &str, value: JsonValue) -> (r: Result<(), String>)
    ensures
        match set_at_path(old(data)@, path@, value@) {
            Ok(d) => r is Ok && final(data)@ == d,
            Err(m) => r matches Err(e) && e@ == m && final(data)@ == old(data)@,
        },
{
    if !is_valid_scim_path(path) {
        return Err(concat("Invalid SCIM path: ", path));
    }
    match parse_filter(path) {
        Some(f) => {
            set_filtered_value(data, &f, &value);
            return Ok(());
        },
        None => {},
    }
    if !contains_char(path, '.') {
        set_simple_value(data, path, value);
        return Ok(());
    }
    let parts = split_char(path, '.');
    proof {
        lemma_split_nonempty(path@, '.');
    }
    match set_nested_value(data, &parts, 0, value) {
        Ok(updated) => {
            *data = updated;
            Ok(())
        },
        Err(true) => {
            let a = concat("Cannot set value at path '", path);
            Err(concat(a.as_str(), "' - target is not an object"))
        },
        Err(false) => {
            let a = concat("Cannot navigate path '", path);
            Err(concat(a.as_str(), "' - intermediate value is not an object"))
        },
    }
}

/// Removes the value at `path`, which may be dotted.
pub fn remove_value_at_path(data: &mut JsonValue, path: &str) -> (r: Result<(), String>)
    ensures
        match remove_at_path(old(data)@, path@) {
            Ok(d) => r is Ok && final(data)@ == d,
            Err(m) => r matches Err(e) && e@ == m && final(data)@ == old(data)@,
        },
{
    if !is_valid_scim_path(path) {
        return Err(concat("Invalid SCIM path: ", path));
    }
    match parse_filter(path) {
        Some(f) => {
            remove_filtered_value(data, &f);
            return Ok(());
        },
        None => {},
    }
    if !contains_char(path, '.') {
        let _ = data.remove(path);
        return Ok(());
    }
    let parts = split_char(path, '.');
    match remove_nested_value(data, &parts, 0) {
        Some(updated) => {
            *data = updated;
            Ok(())
        },
        None => {
            let a = concat("Cannot navigate path '", path);
            Err(concat(a.as_str(), "' - intermediate value is not an object"))
        },
    }
}

/// Merges the members of `value` into `data` when both are objects.
pub fn merge_into(data: &mut JsonValue, value: &JsonValue)
    ensures
        final(data)@ == merge_object(old(data)@, value@),
{
    if !data.is_object() {
        return;
    }
    match value {
        JsonValue::Object(fields) => {
            proof {
                lemma_object_view(*fields);
            }
            let ghost fv = fields_view(fields@);
            let ghost d0 = data@;
            let mut i: usize = 0;
            assert(fv.take(0) =~= Seq::<(Seq<char>, Json)>::empty());
            while i < fields.len()
                invariant
                    fv == fields_view(fields@),
                    i <= fields@.len(),
                    data@ == merge_fields(d0, fv.take(i as int)),
                decreases fields@.len() - i,
            {
                assert(fv.take(i + 1).drop_last() =~= fv.take(i as int));
                data.insert(fields[i].0.clone(), fields[i].1.deep_clone());
                i = i + 1;
            }
            assert(fv.take(fields@.len() as int) =~= fv);
        },
        _ => {},
    }
}

/// Sets `value` at `path`, or merges it at the root when there is no path.
fn put_value_at(data: &mut JsonValue, path: Option<&String>, value: &JsonValue) -> (r: Result<(), String>)
    ensures
        match put_value(old(data)@, match path { Some(p) => Some(p@), None => None }, value@) {
            Ok(d) => r is Ok && final(data)@ == d,
            Err(m) => r matches Err(e) && e@ == m && final(data)@ == old(data)@,
        },
{
    match path {
        Some(p) => set_value_at_path(data, p.as_str(), value.deep_clone()),
        None => {
            merge_into(data, value);
            Ok(())
        },
    }
}

/// Applies one PATCH operation to `data`. On error `data` is unchanged and
/// the error message is returned.
pub fn apply_patch_operation(data: &mut JsonValue, operation: &JsonValue) -> (r: Result<(), String>)
    ensures
        match patch_op_result(old(data)@, operation@) {
            Ok(d) => r is Ok && final(data)@ == d,
            Err(m) => r matches Err(e) && e@ == m && final(data)@ == old(data)@,
        },
{
    let op = match operation.get_str("op") {
        Some(o) => o,
        None => {
            return Err("PATCH operation must have 'op' field".to_string());
        },
    };
    let path = operation.get_str("path");
    let value = operation.get("value");
    match path {
        Some(p) => {
            if is_readonly_attribute(p.as_str()) {
                return Err(concat("Cannot modify readonly attribute: ", p.as_str()));
            }
        },
        None => {},
    }
    if lower_equals(op.as_str(), "add") {
        match value {
            None => Err("ADD operation requires a value".to_string()),
            Some(v) => put_value_at(data, path, v),
        }
    } else if lower_equals(op.as_str(), "remove") {
        match path {
            Some(p) => remove_value_at_path(data, p.as_str()),
            None => Ok(()),
        }
    } else if lower_equals(op.as_str(), "replace") {
        match value {
            None => Err("REPLACE operation requires a value".to_string()),
            Some(v) => put_value_at(data, path, v),
        }
    } else {
        Err(concat("Unsupported PATCH operation: ", op.as_str()))
    }
}

/// Applies PATCH operations in order, stopping at the first that fails.
/// On error `data` is unchanged.
pub fn apply_patch_operations(data: &mut JsonValue, operations: &Vec<JsonValue>) -> (r: Result<(), String>)
    ensures
        match patch_ops_result(old(data)@, Seq::new(operations@.len(), |i: int| operations@[i]@)) {
            Ok(d) => r is Ok && final(data)@ == d,
            Err(m) => r matches Err(e) && e@ == m && final(data)@ == old(data)@,
        },
{
    let ghost ops = Seq::new(operations@.len(), |i: int| operations@[i]@);
    let ghost d0 = data@;
    let mut work = data.deep_clone();
    let mut i: usize = 0;
    assert(ops.take(0) =~= Seq::<Json>::empty());
    while i < operations.len()
        invariant
            ops == Seq::new(operations@.len(), |i: int| operations@[i]@),
            i <= operations@.len(),
            data@ == d0,
            patch_ops_result(d0, ops.take(i as int)) == Ok::<Json, Seq<char>>(work@),
        decreases operations@.len() - i,
    {
        assert(ops.take(i + 1).drop_last() =~= ops.take(i as int));
        match apply_patch_operation(&mut work, &operations[i]) {
            Ok(()) => {},
            Err(e) => {
                assert(ops.take(i + 1).last() == ops[i as int]);
                proof {
                    lemma_ops_error_persists(d0, ops, i as int + 1);
                }
                return Err(e);
            },
        }
        i = i + 1;
    }
    assert(ops.take(operations@.len() as int) =~= ops);
    *data = work;
    Ok(())
}

/// Once a prefix of the operations fails, the whole sequence fails with the same error.
pub proof fn lemma_ops_error_persists(d: Json, ops: Seq<Json>, k: int)
    requires
        0 <= k <= ops.len(),
        patch_ops_result(d, ops.take(k)) is Err,
    ensures
        patch_ops_result(d, ops) == patch_ops_result(d, ops.take(k)),
    decreases ops.len() - k,
{
    if k < ops.len() {
        assert(ops.take(k + 1).drop_last() =~= ops.take(k));
        lemma_ops_error_persists(d, ops, k + 1);
    } else {
        assert(ops.take(k) =~= ops);
    }
}

/// The view of an optional path.
pub open spec fn opt_str(path: Option<&str>) -> Option<Seq<char>> {
    match path {
        Some(p) => Some(p@),
        None => None,
    }
}

fn put_value_str(data: &mut JsonValue, path: Option<&str>, value: &JsonValue) -> (r: Result<(), String>)
    ensures
        match put_value(old(data)@, opt_str(path), value@) {
            Ok(d) => r is Ok && final(data)@ == d,
            Err(m) => r matches Err(e) && e@ == m && final(data)@ == old(data)@,
        },
{
    match path {
        Some(p) => set_value_at_path(data, p, value.deep_clone()),
        None => {
            merge_into(data, value);
            Ok(())
        },
    }
}

/// PATCH operations on resource documents, for providers.
pub trait ScimPatchOperations {
    /// Applies one PATCH operation to `data`; on error `data` is unchanged.
    fn apply_patch_operation(&self, data: &mut JsonValue, operation: &JsonValue) -> (r: Result<(), String>)
        ensures
            match patch_op_result(old(data)@, operation@) {
                Ok(d) => r is Ok && final(data)@ == d,
                Err(m) => r matches Err(e) && e@ == m && final(data)@ == old(data)@,
            },
    {
        apply_patch_operation(data, operation)
    }

    /// Sets the value at `path`, which may be dotted.
    fn set_value_at_path(&self, data: &mut JsonValue, path: &str, value: JsonValue) -> (r: Result<(), String>)
        ensures
            match set_at_path(old(data)@, path@, value@) {
                Ok(d) => r is Ok && final(data)@ == d,
                Err(m) => r matches Err(e) && e@ == m && final(data)@ == old(data)@,
            },
    {
        set_value_at_path(data, path, value)
    }

    /// Removes the value at `path`, which may be dotted.
    fn remove_value_at_path(&self, data: &mut JsonValue, path: &str) -> (r: Result<(), String>)
        ensures
            match remove_at_path(old(data)@, path@) {
                Ok(d) => r is Ok && final(data)@ == d,
                Err(m) => r matches Err(e) && e@ == m && final(data)@ == old(data)@,
            },
    {
        remove_value_at_path(data, path)
    }

    /// Whether `path` names a read-only attribute.
    fn is_readonly_attribute(&self, path: &str) -> (r: bool)
        ensures
            r == readonly_path(path@),
    {
        is_readonly_attribute(path)
    }

    /// Whether `path` is a valid SCIM attribute path.
    fn is_valid_scim_path(&self, path: &str) -> (r: bool)
        ensures
            r == valid_scim_path(path@),
    {
        is_valid_scim_path(path)
    }

    /// An `add` operation: sets `value` at `path`, or merges its members
    /// into the document when there is no path; on error `data` is unchanged.
    fn apply_add_operation(&self, data: &mut JsonValue, path: Option<&str>, value: Option<&JsonValue>) -> (r: Result<
        (),
        String,
    >)
        ensures
            match value {
                None => r matches Err(e) && e@ == "ADD operation requires a value"@ && final(data)@ == old(data)@,
                Some(v) => match put_value(old(data)@, opt_str(path), v@) {
                    Ok(d) => r is Ok && final(data)@ == d,
                    Err(m) => r matches Err(e) && e@ == m && final(data)@ == old(data)@,
                },
            },
    {
        match value {
            None => Err("ADD operation requires a value".to_string()),
            Some(v) => put_value_str(data, path, v),
        }
    }

    /// A `remove` operation: removes the value at `path`; without a path
    /// nothing changes.
    fn apply_remove_operation(&self, data: &mut JsonValue, path: Option<&str>) -> (r: Result<(), String>)
        ensures
            match path {
                None => r is Ok && final(data)@ == old(data)@,
                Some(p) => match remove_at_path(old(data)@, p@) {
                    Ok(d) => r is Ok && final(data)@ == d,
                    Err(m) => r matches Err(e) && e@ == m && final(data)@ == old(data)@,
                },
            },
    {
        match path {
            Some(p) => remove_value_at_path(data, p),
            None => Ok(()),
        }
    }

    /// A `replace` operation: sets `value` at `path`, or merges its members
    /// into the document when there is no path; on error `data` is unchanged.
    fn apply_replace_operation(&self, data: &mut JsonValue, path: Option<&str>, value: Option<&JsonValue>) -> (r: Result<
        (),
        String,
    >)
        ensures
            match value {
                None => r matches Err(e) && e@ == "REPLACE operation requires a value"@ && final(data)@ == old(data)@,
                Some(v) => match put_value(old(data)@, opt_str(path), v@) {
                    Ok(d) => r is Ok && final(data)@ == d,
                    Err(m) => r matches Err(e) && e@ == m && final(data)@ == old(data)@,
                },
            },
    {
        match value {
            None => Err("REPLACE operation requires a value".to_string()),
            Some(v) => put_value_str(data, path, v),
        }
    }
}

impl ScimPatchOperations for crate::providers::standard::StandardResourceProvider {}

} // verus!
