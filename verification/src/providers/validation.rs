//! Validation of SCIM attribute paths, user names, external ids and schema URIs.

use vstd::prelude::*;
use vstd::utf8::encode_utf8;
use crate::text::{
    ascii_lower, byte_len, char_is_alphabetic, char_is_alphanumeric, contains_char, contains_control,
    contains_seq, contains_str, ends_with, has_char, has_control, has_prefix, is_alphabetic,
    is_alphanumeric, is_blank, is_blank_text, lemma_split_nonempty, lower_ends_with, lower_equals,
    lower_starts_with, split_char, split_on, starts_with, str_eq, string_views,
};

verus! {

/// The attribute names known from the core User, Group and meta schemas and
/// their common sub-attributes.
pub open spec fn known_attribute(a: Seq<char>) -> bool {
    a == "id"@
        || a == "externalId"@
        || a == "userName"@
        || a == "password"@
        || a == "displayName"@
        || a == "nickName"@
        || a == "profileUrl"@
        || a == "title"@
        || a == "userType"@
        || a == "preferredLanguage"@
        || a == "locale"@
        || a == "timezone"@
        || a == "active"@
        || a == "name"@
        || a == "emails"@
        || a == "phoneNumbers"@
        || a == "ims"@
        || a == "photos"@
        || a == "addresses"@
        || a == "groups"@
        || a == "entitlements"@
        || a == "roles"@
        || a == "x509Certificates"@
        || a == "meta"@
        || a == "members"@
        || a == "resourceType"@
        || a == "created"@
        || a == "lastModified"@
        || a == "location"@
        || a == "version"@
        || a == "formatted"@
        || a == "familyName"@
        || a == "givenName"@
        || a == "middleName"@
        || a == "honorificPrefix"@
        || a == "honorificSuffix"@
        || a == "value"@
        || a == "display"@
        || a == "type"@
        || a == "primary"@
        || a == "operation"@
        || a == "$ref"@
        || a == "streetAddress"@
        || a == "locality"@
        || a == "region"@
        || a == "postalCode"@
        || a == "country"@
        || a == "employeeNumber"@
        || a == "costCenter"@
        || a == "organization"@
        || a == "division"@
        || a == "department"@
        || a == "manager"@
}

fn is_known_attribute(a: &str) -> (r: bool)
    ensures
        r == known_attribute(a@),
{
    str_eq(a, "id")
        || str_eq(a, "externalId")
        || str_eq(a, "userName")
        || str_eq(a, "password")
        || str_eq(a, "displayName")
        || str_eq(a, "nickName")
        || str_eq(a, "profileUrl")
        || str_eq(a, "title")
        || str_eq(a, "userType")
        || str_eq(a, "preferredLanguage")
        || str_eq(a, "locale")
        || str_eq(a, "timezone")
        || str_eq(a, "active")
        || str_eq(a, "name")
        || str_eq(a, "emails")
        || str_eq(a, "phoneNumbers")
        || str_eq(a, "ims")
        || str_eq(a, "photos")
        || str_eq(a, "addresses")
        || str_eq(a, "groups")
        || str_eq(a, "entitlements")
        || str_eq(a, "roles")
        || str_eq(a, "x509Certificates")
        || str_eq(a, "meta")
        || str_eq(a, "members")
        || str_eq(a, "resourceType")
        || str_eq(a, "created")
        || str_eq(a, "lastModified")
        || str_eq(a, "location")
        || str_eq(a, "version")
        || str_eq(a, "formatted")
        || str_eq(a, "familyName")
        || str_eq(a, "givenName")
        || str_eq(a, "middleName")
        || str_eq(a, "honorificPrefix")
        || str_eq(a, "honorificSuffix")
        || str_eq(a, "value")
        || str_eq(a, "display")
        || str_eq(a, "type")
        || str_eq(a, "primary")
        || str_eq(a, "operation")
        || str_eq(a, "$ref")
        || str_eq(a, "streetAddress")
        || str_eq(a, "locality")
        || str_eq(a, "region")
        || str_eq(a, "postalCode")
        || str_eq(a, "country")
        || str_eq(a, "employeeNumber")
        || str_eq(a, "costCenter")
        || str_eq(a, "organization")
        || str_eq(a, "division")
        || str_eq(a, "department")
        || str_eq(a, "manager")
}

/// The attributes that hold several values.
pub open spec fn multivalued_attribute(a: Seq<char>) -> bool {
    a == "emails"@
        || a == "phoneNumbers"@
        || a == "ims"@
        || a == "photos"@
        || a == "addresses"@
        || a == "groups"@
        || a == "entitlements"@
        || a == "roles"@
        || a == "x509Certificates"@
        || a == "members"@
}

/// Whether `s` is an identifier: a letter first, then letters, digits and `_`.
pub open spec fn identifier(s: Seq<char>) -> bool {
    s.len() > 0 && char_is_alphabetic(s[0]) && forall|i: int|
        0 <= i < s.len() ==> char_is_alphanumeric(#[trigger] s[i]) || s[i] == '_'
}

fn is_identifier(s: &str) -> (r: bool)
    ensures
        r == identifier(s@),
{
    let n = s.unicode_len();
    if n == 0 || !is_alphabetic(s.get_char(0)) {
        return false;
    }
    let mut i: usize = 0;
    while i < n
        invariant
            n == s@.len(),
            n > 0,
            char_is_alphabetic(s@[0]),
            i <= n,
            forall|j: int| 0 <= j < i ==> char_is_alphanumeric(#[trigger] s@[j]) || s@[j] == '_',
        decreases n - i,
    {
        let c = s.get_char(i);
        if !(is_alphanumeric(c) || c == '_') {
            assert(!(char_is_alphanumeric(s@[i as int]) || s@[i as int] == '_'));
            return false;
        }
        i = i + 1;
    }
    true
}

/// The part of a path after its schema URN, if it carries one.
pub open spec fn without_urn(path: Seq<char>) -> Seq<char> {
    if has_char(path, ':') && contains_seq(path, "urn:ietf:params:scim:schemas:"@) {
        split_on(path, ':').last()
    } else {
        path
    }
}

/// The part of a path before its first `[`.
pub open spec fn without_filter(path: Seq<char>) -> Seq<char> {
    split_on(path, '[')[0]
}

/// Whether a dotted path has at least two parts, each an identifier.
pub open spec fn valid_complex_path(path: Seq<char>) -> bool {
    split_on(path, '.').len() >= 2 && forall|i: int|
        0 <= i < split_on(path, '.').len() ==> identifier(#[trigger] split_on(path, '.')[i])
}

/// Whether a plain attribute name is valid: known, or an identifier.
pub open spec fn valid_simple_path(a: Seq<char>) -> bool {
    known_attribute(a) || identifier(a)
}

/// Whether a SCIM attribute path is valid.
pub open spec fn valid_scim_path(path: Seq<char>) -> bool {
    let clean = without_filter(without_urn(path));
    path.len() > 0 && if has_char(clean, '.') {
        valid_complex_path(clean)
    } else {
        valid_simple_path(clean)
    }
}

/// Whether a path names a read-only attribute (compared in ASCII lower case).
pub open spec fn readonly_attribute(path: Seq<char>) -> bool {
    let p = ascii_lower(path);
    ||| p == "id"@
    ||| p == "meta"@
    ||| p == "meta.resourcetype"@
    ||| p == "meta.created"@
    ||| p == "meta.location"@
    ||| (starts_with(p, "meta."@) && (ends_with(p, ".resourcetype"@) || ends_with(p, ".created"@)
        || ends_with(p, ".location"@)))
    ||| p == "groups.display"@
    ||| p == "groups.$ref"@
}

/// Whether a character may appear in a user name.
pub open spec fn username_char(c: char) -> bool {
    char_is_alphanumeric(c) || c == '.' || c == '_' || c == '-' || c == '@' || c == '+'
}

/// Whether a user name is valid.
pub open spec fn valid_username(u: Seq<char>) -> bool {
    &&& u.len() > 0
    &&& encode_utf8(u).len() <= 256
    &&& !is_blank_text(u)
    &&& !has_control(u)
    &&& forall|i: int| 0 <= i < u.len() ==> username_char(#[trigger] u[i])
}

/// Whether an external id is valid.
pub open spec fn valid_external_id(x: Seq<char>) -> bool {
    &&& x.len() > 0
    &&& encode_utf8(x).len() <= 512
    &&& !is_blank_text(x)
    &&& !has_control(x)
}

/// Whether a schema URI is valid.
pub open spec fn valid_schema_uri(u: Seq<char>) -> bool {
    &&& u.len() > 0
    &&& starts_with(u, "urn:"@)
    &&& contains_seq(u, "scim:schemas"@)
    &&& encode_utf8(u).len() <= 512
    &&& !has_control(u)
}

/// The base attribute of a path: without schema URN and filter, up to the first `.`.
pub open spec fn base_attribute(path: Seq<char>) -> Seq<char> {
    split_on(without_filter(without_urn(path)), '.')[0]
}

fn strip_urn(path: &str) -> (r: String)
    ensures
        r@ == without_urn(path@),
{
    if contains_char(path, ':') && contains_str(path, "urn:ietf:params:scim:schemas:") {
        let parts = split_char(path, ':');
        proof {
            lemma_split_nonempty(path@, ':');
            assert(string_views(parts@)[parts@.len() - 1] == parts@[parts@.len() - 1]@);
        }
        parts[parts.len() - 1].clone()
    } else {
        path.to_owned()
    }
}

fn first_piece(s: &str, sep: char) -> (r: String)
    ensures
        r@ == split_on(s@, sep)[0],
{
    let parts = split_char(s, sep);
    proof {
        lemma_split_nonempty(s@, sep);
        assert(string_views(parts@)[0] == parts@[0]@);
    }
    parts[0].clone()
}

/// Validation of SCIM values, for providers.
pub trait ScimValidator {
    /// Whether a SCIM attribute path is valid: non-empty; after removing a
    /// schema URN and a value filter, a dotted path of identifiers or a known
    /// or identifier-like attribute name.
    fn is_valid_scim_path(&self, path: &str) -> (r: bool)
        ensures
            r == valid_scim_path(path@),
    {
        if path.unicode_len() == 0 {
            return false;
        }
        let actual = strip_urn(path);
        let clean = first_piece(actual.as_str(), '[');
        if contains_char(clean.as_str(), '.') {
            self.is_valid_complex_path(clean.as_str())
        } else {
            self.is_valid_simple_path(clean.as_str())
        }
    }

    /// Whether a dotted path has at least two parts, each an identifier.
    fn is_valid_complex_path(&self, path: &str) -> (r: bool)
        ensures
            r == valid_complex_path(path@),
    {
        let parts = split_char(path, '.');
        if parts.len() < 2 {
            return false;
        }
        let mut i: usize = 0;
        while i < parts.len()
            invariant
                string_views(parts@) == split_on(path@, '.'),
                i <= parts@.len(),
                forall|j: int| 0 <= j < i ==> identifier(#[trigger] split_on(path@, '.')[j]),
            decreases parts@.len() - i,
        {
            assert(string_views(parts@)[i as int] == parts@[i as int]@);
            if !is_identifier(parts[i].as_str()) {
                return false;
            }
            i = i + 1;
        }
        true
    }

    /// Whether an attribute name is known or identifier-like.
    fn is_valid_simple_path(&self, attribute: &str) -> (r: bool)
        ensures
            r == valid_simple_path(attribute@),
    {
        is_known_attribute(attribute) || is_identifier(attribute)
    }

    /// Whether an attribute holds several values.
    fn is_multivalued_attribute(&self, attribute_name: &str) -> (r: bool)
        ensures
            r == multivalued_attribute(attribute_name@),
    {
        str_eq(attribute_name, "emails")
        || str_eq(attribute_name, "phoneNumbers")
        || str_eq(attribute_name, "ims")
        || str_eq(attribute_name, "photos")
        || str_eq(attribute_name, "addresses")
        || str_eq(attribute_name, "groups")
        || str_eq(attribute_name, "entitlements")
        || str_eq(attribute_name, "roles")
        || str_eq(attribute_name, "x509Certificates")
        || str_eq(attribute_name, "members")
    }

    /// Whether a path names a read-only attribute.
    fn is_readonly_attribute(&self, path: &str) -> (r: bool)
        ensures
            r == readonly_attribute(path@),
    {
        lower_equals(path, "id") || lower_equals(path, "meta") || lower_equals(path, "meta.resourcetype")
            || lower_equals(path, "meta.created") || lower_equals(path, "meta.location") || (
        lower_starts_with(path, "meta.") && (lower_ends_with(path, ".resourcetype") || lower_ends_with(
            path,
            ".created",
        ) || lower_ends_with(path, ".location"))) || lower_equals(path, "groups.display")
            || lower_equals(path, "groups.$ref")
    }

    /// Whether a user name is valid: non-empty, at most 256 bytes, not blank,
    /// without control characters, made of alphanumerics and `. _ - @ +`.
    fn is_valid_username(&self, username: &str) -> (r: bool)
        ensures
            r == valid_username(username@),
    {
        if username.unicode_len() == 0 || byte_len(username) > 256 {
            return false;
        }
        if is_blank(username) || contains_control(username) {
            return false;
        }
        let n = username.unicode_len();
        let mut i: usize = 0;
        while i < n
            invariant
                n == username@.len(),
                n > 0,
                encode_utf8(username@).len() <= 256,
                !is_blank_text(username@),
                !has_control(username@),
                i <= n,
                forall|j: int| 0 <= j < i ==> username_char(#[trigger] username@[j]),
            decreases n - i,
        {
            let c = username.get_char(i);
            if !(is_alphanumeric(c) || c == '.' || c == '_' || c == '-' || c == '@' || c == '+') {
                assert(!username_char(username@[i as int]));
                return false;
            }
            i = i + 1;
        }
        true
    }

    /// Whether an external id is valid: non-empty, at most 512 bytes, not
    /// blank, without control characters.
    fn is_valid_external_id(&self, external_id: &str) -> (r: bool)
        ensures
            r == valid_external_id(external_id@),
    {
        if external_id.unicode_len() == 0 || byte_len(external_id) > 512 {
            return false;
        }
        !is_blank(external_id) && !contains_control(external_id)
    }

    /// Whether a schema URI is valid: starts with `urn:`, mentions
    /// `scim:schemas`, at most 512 bytes, without control characters.
    fn is_valid_schema_uri(&self, schema_uri: &str) -> (r: bool)
        ensures
            r == valid_schema_uri(schema_uri@),
    {
        if schema_uri.unicode_len() == 0 {
            return false;
        }
        has_prefix(schema_uri, "urn:") && contains_str(schema_uri, "scim:schemas") && byte_len(schema_uri) <= 512
            && !contains_control(schema_uri)
    }

    /// The base attribute of a path.
    fn extract_base_attribute(&self, path: &str) -> (r: String)
        ensures
            r@ == base_attribute(path@),
    {
        let clean = strip_urn(path);
        let without = first_piece(clean.as_str(), '[');
        first_piece(without.as_str(), '.')
    }
}

impl ScimValidator for crate::providers::standard::StandardResourceProvider {}

} // verus!
