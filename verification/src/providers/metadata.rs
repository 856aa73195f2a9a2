//! Reading and maintaining the SCIM `meta` object of resources.

use vstd::prelude::*;
use crate::json::Json;
use crate::providers::standard::StandardResourceProvider;
use crate::resource::{Resource, copy_opt_string, opt_view};
use crate::text::concat;

verus! {

/// The number of `/` characters at the end of `s`.
pub open spec fn trailing_slashes(s: Seq<char>) -> nat
    decreases s.len(),
{
    if s.len() > 0 && s.last() == '/' {
        1 + trailing_slashes(s.drop_last())
    } else {
        0
    }
}

/// `s` without its trailing `/` characters.
pub open spec fn without_trailing_slashes(s: Seq<char>) -> Seq<char> {
    s.take(s.len() - trailing_slashes(s))
}

/// The location of a resource under a base URL.
pub open spec fn location_uri(base_url: Seq<char>, resource_type: Seq<char>, id: Seq<char>) -> Seq<char> {
    without_trailing_slashes(base_url) + "/"@ + resource_type + "/"@ + id
}

/// The string member `key` of a document's `meta` object, if any.
pub open spec fn meta_text(data: Json, key: Seq<char>) -> Option<Seq<char>> {
    match data.get("meta"@) {
        Some(m) => m.get_str(key),
        None => None,
    }
}

/// Whether a document's `meta` names a resource type and a location.
pub open spec fn valid_metadata(data: Json) -> bool {
    &&& meta_text(data, "resourceType"@) matches Some(t) && t.len() > 0
    &&& meta_text(data, "location"@) matches Some(l) && l.len() > 0
}

/// The trailing `/` count is the length after the last other character.
proof fn lemma_trailing_slashes(s: Seq<char>, k: int)
    requires
        0 <= k <= s.len(),
        forall|j: int| s.len() - k <= j < s.len() ==> #[trigger] s[j] == '/',
        k == s.len() || s[s.len() - k - 1] != '/',
    ensures
        trailing_slashes(s) == k,
    decreases k,
{
    if k > 0 {
        let t = s.drop_last();
        assert forall|j: int| t.len() - (k - 1) <= j < t.len() implies #[trigger] t[j] == '/' by {
            assert(t[j] == s[j]);
        }
        if k - 1 < t.len() {
            assert(t[t.len() - (k - 1) - 1] == s[s.len() - k - 1]);
        }
        lemma_trailing_slashes(t, k - 1);
    }
}

/// Maintenance of resource metadata, for providers.
pub trait ScimMetadataManager {
    /// The location of a resource: the base URL without trailing slashes,
    /// the resource type and the id, separated by `/`.
    fn generate_location_uri(&self, base_url: &str, resource_type: &str, id: &str) -> (r: String)
        ensures
            r@ == location_uri(base_url@, resource_type@, id@),
    {
        let n = base_url.unicode_len();
        let mut end: usize = n;
        while end > 0 && base_url.get_char(end - 1) == '/'
            invariant
                n == base_url@.len(),
                end <= n,
                forall|j: int| end <= j < n ==> #[trigger] base_url@[j] == '/',
            decreases end,
        {
            end = end - 1;
        }
        proof {
            lemma_trailing_slashes(base_url@, n - end);
            assert(base_url@.subrange(0, end as int) =~= without_trailing_slashes(base_url@));
        }
        let base = base_url.substring_char(0, end);
        let a = concat(base, "/");
        let b = concat(a.as_str(), resource_type);
        let c = concat(b.as_str(), "/");
        concat(c.as_str(), id)
    }

    /// The version recorded in the resource's `meta`, if any.
    fn extract_resource_version(&self, resource: &Resource) -> (r: Option<String>)
        ensures
            opt_view(r) == meta_text(resource.data@, "version"@),
    {
        match resource.data.get("meta") {
            Some(m) => copy_opt_string(m.get_str("version")),
            None => None,
        }
    }

    /// Whether the resource's `meta` names a resource type and a location.
    fn has_valid_metadata(&self, resource: &Resource) -> (r: bool)
        ensures
            r == valid_metadata(resource.data@),
    {
        match resource.data.get("meta") {
            Some(m) => {
                let has_type = match m.get_str("resourceType") {
                    Some(t) => t.unicode_len() > 0,
                    None => false,
                };
                let has_location = match m.get_str("location") {
                    Some(l) => l.unicode_len() > 0,
                    None => false,
                };
                has_type && has_location
            },
            None => false,
        }
    }

    /// Removes the resource's `meta`.
    fn strip_metadata(&self, resource: &mut Resource)
        ensures
            final(resource).resource_type == old(resource).resource_type,
            final(resource).data@ == old(resource).data@.without("meta"@),
    {
        resource.data.remove("meta");
    }

    /// The creation time recorded in the resource's `meta`, if any.
    fn get_creation_time(&self, resource: &Resource) -> (r: Option<String>)
        ensures
            opt_view(r) == meta_text(resource.data@, "created"@),
    {
        match resource.data.get("meta") {
            Some(m) => copy_opt_string(m.get_str("created")),
            None => None,
        }
    }

    /// The last modification time recorded in the resource's `meta`, if any.
    fn get_modification_time(&self, resource: &Resource) -> (r: Option<String>)
        ensures
            opt_view(r) == meta_text(resource.data@, "lastModified"@),
    {
        match resource.data.get("meta") {
            Some(m) => copy_opt_string(m.get_str("lastModified")),
            None => None,
        }
    }
}

impl ScimMetadataManager for StandardResourceProvider {}

} // verus!
