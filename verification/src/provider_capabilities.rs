//! Discovery of what a provider supports, from the registered schemas and
//! resource types.

use vstd::prelude::*;
use crate::collections::StrMap;
use crate::json::JsonValue;
use crate::resource::ScimOperation;
use crate::schema::{AttributeDefinition, AttributeType, SchemaRegistry, attribute_models, user_attributes};
use crate::text::{concat, string_views};

verus! {

/// Everything a provider supports.
#[derive(Debug, Clone)]
pub struct ProviderCapabilities {
    /// Supported operations by resource type.
    pub supported_operations: StrMap<Vec<ScimOperation>>,
    pub supported_schemas: Vec<String>,
    pub supported_resource_types: Vec<String>,
    pub bulk_capabilities: BulkCapabilities,
    pub filter_capabilities: FilterCapabilities,
    pub pagination_capabilities: PaginationCapabilities,
    pub authentication_capabilities: AuthenticationCapabilities,
    pub extended_capabilities: ExtendedCapabilities,
}

/// Bulk operation support.
#[derive(Debug, Clone, Copy, PartialEq, Eq, Structural)]
pub struct BulkCapabilities {
    pub supported: bool,
    pub max_operations: Option<usize>,
    pub max_payload_size: Option<usize>,
    pub fail_on_errors_supported: bool,
}

/// Filtering support.
#[derive(Debug, Clone)]
pub struct FilterCapabilities {
    pub supported: bool,
    pub max_results: Option<usize>,
    /// Filterable attribute paths by resource type.
    pub filterable_attributes: StrMap<Vec<String>>,
    pub supported_operators: Vec<FilterOperator>,
    pub complex_filters_supported: bool,
}

/// Pagination support.
#[derive(Debug, Clone, Copy, PartialEq, Eq, Structural)]
pub struct PaginationCapabilities {
    pub supported: bool,
    pub default_page_size: Option<usize>,
    pub max_page_size: Option<usize>,
    pub cursor_based_supported: bool,
}

/// An authentication scheme of the service provider.
#[derive(Debug, Clone)]
pub struct AuthenticationScheme {
    pub name: String,
    pub description: String,
    pub spec_uri: Option<String>,
    pub documentation_uri: Option<String>,
    pub auth_type: String,
    pub primary: bool,
}

/// Authentication support.
#[derive(Debug, Clone)]
pub struct AuthenticationCapabilities {
    pub schemes: Vec<AuthenticationScheme>,
    pub mfa_supported: bool,
    pub token_refresh_supported: bool,
}

/// Further features.
#[derive(Debug, Clone)]
pub struct ExtendedCapabilities {
    pub etag_supported: bool,
    pub patch_supported: bool,
    pub change_password_supported: bool,
    pub sort_supported: bool,
    pub custom_capabilities: StrMap<JsonValue>,
}

/// SCIM filter operators.
#[derive(Debug, Clone, Copy, PartialEq, Eq, Structural)]
pub enum FilterOperator {
    Equal,
    NotEqual,
    Contains,
    StartsWith,
    EndsWith,
    Present,
    GreaterThan,
    GreaterThanOrEqual,
    LessThan,
    LessThanOrEqual,
}

/// The service provider configuration derived from capabilities.
#[derive(Debug, Clone)]
pub struct ServiceProviderConfig {
    pub patch_supported: bool,
    pub bulk_supported: bool,
    pub filter_supported: bool,
    pub change_password_supported: bool,
    pub sort_supported: bool,
    pub etag_supported: bool,
    pub authentication_schemes: Vec<AuthenticationScheme>,
    pub bulk_max_operations: Option<u32>,
    pub bulk_max_payload_size: Option<u64>,
    pub filter_max_results: Option<u32>,
}

/// Capabilities a provider reports about itself.
pub trait CapabilityIntrospectable {
    /// Provider-specific features.
    fn get_provider_specific_capabilities(&self) -> (r: ExtendedCapabilities)
        default_ensures
            r.etag_supported,
            !r.patch_supported,
            !r.change_password_supported,
            !r.sort_supported,
            r.custom_capabilities@ == Map::<Seq<char>, JsonValue>::empty(),
    {
        ExtendedCapabilities::default()
    }

    /// Bulk limits, if the provider states them.
    fn get_bulk_limits(&self) -> (r: Option<BulkCapabilities>)
        default_ensures
            r is None,
    {
        None
    }

    /// Pagination limits, if the provider states them.
    fn get_pagination_limits(&self) -> (r: Option<PaginationCapabilities>)
        default_ensures
            r is None,
    {
        None
    }

    /// Authentication support, if the provider states it.
    fn get_authentication_capabilities(&self) -> (r: Option<AuthenticationCapabilities>)
        default_ensures
            r is None,
    {
        None
    }
}

/// Whether an attribute of the tree has a type satisfying `pred`.
pub open spec fn has_type_in(attrs: Seq<AttributeDefinition>, pred: spec_fn(AttributeType) -> bool) -> bool
    decreases attrs,
{
    if attrs.len() == 0 {
        false
    } else {
        let last = attrs[attrs.len() - 1];
        proof {
            assert(decreases_to!(attrs => attrs[attrs.len() - 1]));
            assert(decreases_to!(attrs => attrs.subrange(0, attrs.len() - 1)));
        }
        pred(last.data_type) || has_type_in(last.sub_attributes@, pred) || has_type_in(attrs.subrange(0, attrs.len() - 1), pred)
    }
}

/// An attribute of a type satisfying `pred`, or with a sub-attribute of
/// one, is found by `has_type_in`.
pub proof fn lemma_has_type_at(attrs: Seq<AttributeDefinition>, pred: spec_fn(AttributeType) -> bool, i: int)
    requires
        0 <= i < attrs.len(),
        pred(attrs[i].data_type) || has_type_in(attrs[i].sub_attributes@, pred),
    ensures
        has_type_in(attrs, pred),
    decreases attrs.len(),
{
    if i < attrs.len() - 1 {
        let prefix = attrs.subrange(0, attrs.len() - 1);
        assert(prefix[i] == attrs[i]);
        lemma_has_type_at(prefix, pred, i);
    }
}

/// A registry whose first schema has the core User attributes supports
/// every filter operator: it has string attributes (`userName`) and
/// instants (`meta.created`).
pub proof fn law_core_registry_supports_every_operator(reg: SchemaRegistry, ops: Seq<FilterOperator>)
    requires
        reg.schema_seq().len() >= 1,
        attribute_models(reg.schema_seq()[0].attributes@) == user_attributes(),
        ops == operators_for(
            registry_has_type(reg.schema_seq(), |t: AttributeType| is_string_type(t)),
            registry_has_type(reg.schema_seq(), |t: AttributeType| is_comparable_type(t)),
        ),
    ensures
        ops == seq![
            FilterOperator::Equal,
            FilterOperator::NotEqual,
            FilterOperator::Present,
            FilterOperator::Contains,
            FilterOperator::StartsWith,
            FilterOperator::EndsWith,
            FilterOperator::GreaterThan,
            FilterOperator::GreaterThanOrEqual,
            FilterOperator::LessThan,
            FilterOperator::LessThanOrEqual,
        ],
{
    let attrs = reg.schema_seq()[0].attributes@;
    assert(user_attributes().len() == 19);
    assert(attribute_models(attrs).len() == attrs.len());
    assert(attrs.len() == 19);
    assert(attribute_models(attrs)[2] == user_attributes()[2]);
    lemma_has_type_at(attrs, |t: AttributeType| is_string_type(t), 2);
    assert(attribute_models(attrs)[18] == user_attributes()[18]);
    let subs = attrs[18].sub_attributes@;
    assert(attrs[18].model() == attribute_models(attrs)[18]);
    assert(attrs[18].model().sub_attributes.len() == subs.len());
    assert(subs.len() == 5);
    assert(attrs[18].model().sub_attributes[1] == subs[1].model());
    lemma_has_type_at(subs, |t: AttributeType| is_comparable_type(t), 1);
    lemma_has_type_at(attrs, |t: AttributeType| is_comparable_type(t), 18);
    assert(has_type_in(reg.schema_seq()[0].attributes@, |t: AttributeType| is_string_type(t)));
    assert(has_type_in(reg.schema_seq()[0].attributes@, |t: AttributeType| is_comparable_type(t)));
    assert(registry_has_type(reg.schema_seq(), |t: AttributeType| is_string_type(t)));
    assert(registry_has_type(reg.schema_seq(), |t: AttributeType| is_comparable_type(t)));
    assert(ops =~= seq![
        FilterOperator::Equal,
        FilterOperator::NotEqual,
        FilterOperator::Present,
        FilterOperator::Contains,
        FilterOperator::StartsWith,
        FilterOperator::EndsWith,
        FilterOperator::GreaterThan,
        FilterOperator::GreaterThanOrEqual,
        FilterOperator::LessThan,
        FilterOperator::LessThanOrEqual,
    ]);
}

/// Whether a type is a string.
pub open spec fn is_string_type(t: AttributeType) -> bool {
    t == AttributeType::String
}

/// Whether a type is ordered (integer, decimal or instant).
pub open spec fn is_comparable_type(t: AttributeType) -> bool {
    t == AttributeType::Integer || t == AttributeType::Decimal || t == AttributeType::DateTime
}

/// Whether some schema has an attribute of a type satisfying `pred`.
pub open spec fn registry_has_type(schemas: Seq<crate::schema::Schema>, pred: spec_fn(AttributeType) -> bool) -> bool {
    exists|i: int| 0 <= i < schemas.len() && has_type_in(#[trigger] schemas[i].attributes@, pred)
}

/// The path of an attribute under a prefix.
pub open spec fn attribute_path(prefix: Seq<char>, name: Seq<char>) -> Seq<char> {
    if prefix.len() == 0 {
        name
    } else {
        prefix + "."@ + name
    }
}

/// The filterable attribute paths of a tree: every non-complex attribute,
/// with the sub-attributes of each attribute following it.
pub open spec fn filterable_paths(attrs: Seq<AttributeDefinition>, prefix: Seq<char>) -> Seq<Seq<char>>
    decreases attrs,
{
    if attrs.len() == 0 {
        Seq::empty()
    } else {
        let last = attrs[attrs.len() - 1];
        proof {
            assert(decreases_to!(attrs => attrs[attrs.len() - 1]));
            assert(decreases_to!(attrs => attrs.subrange(0, attrs.len() - 1)));
        }
        let path = attribute_path(prefix, last.name@);
        let own = if last.data_type != AttributeType::Complex {
            seq![path]
        } else {
            Seq::empty()
        };
        filterable_paths(attrs.subrange(0, attrs.len() - 1), prefix) + own + filterable_paths(last.sub_attributes@, path)
    }
}

/// Every non-complex attribute is listed as filterable under its path.
proof fn lemma_own_paths(attrs: Seq<AttributeDefinition>, prefix: Seq<char>, i: int)
    requires
        0 <= i < attrs.len(),
        attrs[i].data_type != AttributeType::Complex,
    ensures
        filterable_paths(attrs, prefix).contains(attribute_path(prefix, attrs[i].name@)),
    decreases attrs.len(),
{
    let n = attrs.len();
    let init = attrs.subrange(0, n - 1);
    let last = attrs[n - 1];
    let path = attribute_path(prefix, last.name@);
    let own = if last.data_type != AttributeType::Complex { seq![path] } else { Seq::<Seq<char>>::empty() };
    let a = filterable_paths(init, prefix);
    let b = filterable_paths(last.sub_attributes@, path);
    assert(filterable_paths(attrs, prefix) == a + own + b);
    if i == n - 1 {
        assert((a + own + b)[a.len() as int] == path);
    } else {
        assert(init[i] == attrs[i]);
        lemma_own_paths(init, prefix, i);
        let k = choose|k: int| 0 <= k < a.len() && a[k] == attribute_path(prefix, attrs[i].name@);
        assert((a + own + b)[k] == a[k]);
    }
}

/// The filterable paths list every non-complex attribute under its path and
/// every non-complex sub-attribute of an attribute under the attribute's
/// path joined to its name with `.`.
pub proof fn law_filterable_attributes_cover(
    found: Seq<Seq<char>>,
    attrs: Seq<AttributeDefinition>,
    prefix: Seq<char>,
    i: int,
    j: int,
)
    requires
        found == filterable_paths(attrs, prefix),
        0 <= i < attrs.len(),
    ensures
        attrs[i].data_type != AttributeType::Complex ==> found.contains(
            if prefix.len() == 0 { attrs[i].name@ } else { prefix + "."@ + attrs[i].name@ },
        ),
        0 <= j < attrs[i].sub_attributes@.len() && attrs[i].sub_attributes@[j].data_type != AttributeType::Complex
            && attrs[i].name@.len() > 0 ==> found.contains(
            (if prefix.len() == 0 { attrs[i].name@ } else { prefix + "."@ + attrs[i].name@ }) + "."@
                + attrs[i].sub_attributes@[j].name@,
        ),
    decreases attrs.len(),
{
    if attrs[i].data_type != AttributeType::Complex {
        lemma_own_paths(attrs, prefix, i);
    }
    if 0 <= j < attrs[i].sub_attributes@.len() && attrs[i].sub_attributes@[j].data_type != AttributeType::Complex
        && attrs[i].name@.len() > 0 {
        let n = attrs.len();
        let init = attrs.subrange(0, n - 1);
        let last = attrs[n - 1];
        let path = attribute_path(prefix, last.name@);
        let own = if last.data_type != AttributeType::Complex { seq![path] } else { Seq::<Seq<char>>::empty() };
        let a = filterable_paths(init, prefix);
        let b = filterable_paths(last.sub_attributes@, path);
        assert(found == a + own + b);
        let target = attribute_path(attribute_path(prefix, attrs[i].name@), attrs[i].sub_attributes@[j].name@);
        reveal_strlit(".");
        assert(attribute_path(prefix, attrs[i].name@).len() > 0);
        assert(target == (if prefix.len() == 0 { attrs[i].name@ } else { prefix + "."@ + attrs[i].name@ }) + "."@
            + attrs[i].sub_attributes@[j].name@);
        if i == n - 1 {
            lemma_own_paths(last.sub_attributes@, path, j);
            let k = choose|k: int| 0 <= k < b.len() && b[k] == target;
            assert((a + own + b)[a.len() + own.len() + k] == b[k]);
        } else {
            assert(init[i] == attrs[i]);
            law_filterable_attributes_cover(a, init, prefix, i, j);
            let k = choose|k: int| 0 <= k < a.len() && a[k] == target;
            assert((a + own + b)[k] == a[k]);
        }
    }
}

/// The operators supported given string and comparable attributes.
pub open spec fn operators_for(has_strings: bool, has_comparables: bool) -> Seq<FilterOperator> {
    seq![FilterOperator::Equal, FilterOperator::NotEqual, FilterOperator::Present] + (if has_strings {
        seq![FilterOperator::Contains, FilterOperator::StartsWith, FilterOperator::EndsWith]
    } else {
        Seq::empty()
    }) + (if has_comparables {
        seq![
            FilterOperator::GreaterThan,
            FilterOperator::GreaterThanOrEqual,
            FilterOperator::LessThan,
            FilterOperator::LessThanOrEqual,
        ]
    } else {
        Seq::empty()
    })
}

fn attrs_have_string(attrs: &Vec<AttributeDefinition>) -> (r: bool)
    ensures
        r == has_type_in(attrs@, |t: AttributeType| is_string_type(t)),
    decreases attrs@,
{
    let ghost pred = |t: AttributeType| is_string_type(t);
    let mut i: usize = 0;
    while i < attrs.len()
        invariant
            i <= attrs@.len(),
            pred == (|t: AttributeType| is_string_type(t)),
            has_type_in(attrs@.subrange(0, i as int), pred) == false,
        decreases attrs@.len() - i,
    {
        let a = &attrs[i];
        proof {
            assert(decreases_to!(attrs@ => attrs@[i as int]));
        }
        let sub = attrs_have_string(&a.sub_attributes);
        let ghost pre = attrs@.subrange(0, i + 1);
        assert(pre.subrange(0, pre.len() - 1) =~= attrs@.subrange(0, i as int));
        assert(pre[pre.len() - 1] == attrs@[i as int]);
        if a.data_type == AttributeType::String || sub {
            proof {
                lemma_has_type_prefix(attrs@, pred, i as int + 1);
            }
            return true;
        }
        i = i + 1;
    }
    assert(attrs@.subrange(0, attrs@.len() as int) =~= attrs@);
    false
}

fn attrs_have_comparable(attrs: &Vec<AttributeDefinition>) -> (r: bool)
    ensures
        r == has_type_in(attrs@, |t: AttributeType| is_comparable_type(t)),
    decreases attrs@,
{
    let ghost pred = |t: AttributeType| is_comparable_type(t);
    let mut i: usize = 0;
    while i < attrs.len()
        invariant
            i <= attrs@.len(),
            pred == (|t: AttributeType| is_comparable_type(t)),
            has_type_in(attrs@.subrange(0, i as int), pred) == false,
        decreases attrs@.len() - i,
    {
        let a = &attrs[i];
        proof {
            assert(decreases_to!(attrs@ => attrs@[i as int]));
        }
        let sub = attrs_have_comparable(&a.sub_attributes);
        let ghost pre = attrs@.subrange(0, i + 1);
        assert(pre.subrange(0, pre.len() - 1) =~= attrs@.subrange(0, i as int));
        assert(pre[pre.len() - 1] == attrs@[i as int]);
        let t = a.data_type;
        if t == AttributeType::Integer || t == AttributeType::Decimal || t == AttributeType::DateTime || sub {
            proof {
                lemma_has_type_prefix(attrs@, pred, i as int + 1);
            }
            return true;
        }
        i = i + 1;
    }
    assert(attrs@.subrange(0, attrs@.len() as int) =~= attrs@);
    false
}

/// A match in a prefix is a match in the whole tree.
pub proof fn lemma_has_type_prefix(attrs: Seq<AttributeDefinition>, pred: spec_fn(AttributeType) -> bool, k: int)
    requires
        0 <= k <= attrs.len(),
        has_type_in(attrs.subrange(0, k), pred),
    ensures
        has_type_in(attrs, pred),
    decreases attrs.len() - k,
{
    if k < attrs.len() {
        let next = attrs.subrange(0, k + 1);
        assert(next.subrange(0, next.len() - 1) =~= attrs.subrange(0, k));
        lemma_has_type_prefix(attrs, pred, k + 1);
    } else {
        assert(attrs.subrange(0, k) =~= attrs);
    }
}

/// Finds, recursively, the filterable attribute paths under `prefix`.
fn collect_filterable_attributes(attributes: &Vec<AttributeDefinition>, prefix: &str) -> (r: Vec<String>)
    ensures
        string_views(r@) == filterable_paths(attributes@, prefix@),
    decreases attributes@,
{
    let mut out: Vec<String> = Vec::new();
    let mut i: usize = 0;
    assert(attributes@.subrange(0, 0) =~= Seq::<AttributeDefinition>::empty());
    assert(string_views(out@) =~= Seq::<Seq<char>>::empty());
    while i < attributes.len()
        invariant
            i <= attributes@.len(),
            string_views(out@) == filterable_paths(attributes@.subrange(0, i as int), prefix@),
        decreases attributes@.len() - i,
    {
        let a = &attributes[i];
        proof {
            assert(decreases_to!(attributes@ => attributes@[i as int]));
        }
        let name = if prefix.unicode_len() == 0 {
            a.name.clone()
        } else {
            let p = concat(prefix, ".");
            concat(p.as_str(), a.name.as_str())
        };
        let ghost pre = attributes@.subrange(0, i + 1);
        assert(pre.subrange(0, pre.len() - 1) =~= attributes@.subrange(0, i as int));
        assert(pre[pre.len() - 1] == attributes@[i as int]);
        let ghost before = string_views(out@);
        if a.data_type != AttributeType::Complex {
            out.push(name.clone());
            assert(string_views(out@) =~= before + seq![name@]);
        } else {
            assert(string_views(out@) =~= before + Seq::<Seq<char>>::empty());
        }
        let ghost mid = string_views(out@);
        let subs = collect_filterable_attributes(&a.sub_attributes, name.as_str());
        let mut j: usize = 0;
        while j < subs.len()
            invariant
                j <= subs@.len(),
                string_views(out@) == mid + string_views(subs@).subrange(0, j as int),
            decreases subs@.len() - j,
        {
            let ghost b2 = string_views(out@);
            out.push(subs[j].clone());
            assert(string_views(out@) =~= b2.push(subs@[j as int]@));
            assert(string_views(subs@).subrange(0, j + 1) =~= string_views(subs@).subrange(0, j as int).push(subs@[j as int]@));
            j = j + 1;
        }
        assert(string_views(subs@).subrange(0, subs@.len() as int) =~= string_views(subs@));
        i = i + 1;
    }
    assert(attributes@.subrange(0, attributes@.len() as int) =~= attributes@);
    out
}

/// Discovery of provider capabilities.
pub struct CapabilityDiscovery;

impl CapabilityDiscovery {
    /// The ids of the registered schemas, in order.
    pub fn discover_schemas(schema_registry: &SchemaRegistry) -> (r: Vec<String>)
        ensures
            r@.len() == schema_registry.schema_seq().len(),
            forall|i: int| 0 <= i < r@.len() ==> r@[i]@ == schema_registry.schema_seq()[i].id@,
    {
        let schemas = schema_registry.get_schemas();
        let mut out: Vec<String> = Vec::new();
        let mut i: usize = 0;
        while i < schemas.len()
            invariant
                schemas@ == schema_registry.schema_seq(),
                i <= schemas@.len(),
                out@.len() == i,
                forall|j: int| 0 <= j < i ==> out@[j]@ == schemas@[j].id@,
            decreases schemas@.len() - i,
        {
            out.push(schemas[i].id.clone());
            i = i + 1;
        }
        out
    }

    /// The registered resource types, in order.
    pub fn discover_resource_types(resource_handlers: &StrMap<String>) -> (r: Vec<String>)
        ensures
            r@.len() == resource_handlers.key_seq().len(),
            forall|i: int| 0 <= i < r@.len() ==> r@[i]@ == resource_handlers.key_seq()[i],
    {
        resource_handlers.keys()
    }

    /// Whether some schema has a string attribute.
    pub fn has_string_attributes(schema_registry: &SchemaRegistry) -> (r: bool)
        ensures
            r == registry_has_type(schema_registry.schema_seq(), |t: AttributeType| is_string_type(t)),
    {
        let schemas = schema_registry.get_schemas();
        let mut i: usize = 0;
        while i < schemas.len()
            invariant
                schemas@ == schema_registry.schema_seq(),
                i <= schemas@.len(),
                forall|j: int| 0 <= j < i ==> !has_type_in(#[trigger] schemas@[j].attributes@, |t: AttributeType| is_string_type(t)),
            decreases schemas@.len() - i,
        {
            if attrs_have_string(&schemas[i].attributes) {
                return true;
            }
            i = i + 1;
        }
        false
    }

    /// Whether some schema has an integer, decimal or instant attribute.
    pub fn has_comparable_attributes(schema_registry: &SchemaRegistry) -> (r: bool)
        ensures
            r == registry_has_type(schema_registry.schema_seq(), |t: AttributeType| is_comparable_type(t)),
    {
        let schemas = schema_registry.get_schemas();
        let mut i: usize = 0;
        while i < schemas.len()
            invariant
                schemas@ == schema_registry.schema_seq(),
                i <= schemas@.len(),
                forall|j: int| 0 <= j < i ==> !has_type_in(#[trigger] schemas@[j].attributes@, |t: AttributeType| is_comparable_type(t)),
            decreases schemas@.len() - i,
        {
            if attrs_have_comparable(&schemas[i].attributes) {
                return true;
            }
            i = i + 1;
        }
        false
    }

    /// The filter operators supported: equality, inequality and presence
    /// always; the string operators when a string attribute exists; the
    /// ordering operators when an ordered attribute exists.
    pub fn determine_supported_operators(schema_registry: &SchemaRegistry) -> (r: Vec<FilterOperator>)
        ensures
            r@ == operators_for(
                registry_has_type(schema_registry.schema_seq(), |t: AttributeType| is_string_type(t)),
                registry_has_type(schema_registry.schema_seq(), |t: AttributeType| is_comparable_type(t)),
            ),
    {
        let mut ops = vec![FilterOperator::Equal, FilterOperator::NotEqual, FilterOperator::Present];
        let strings = Self::has_string_attributes(schema_registry);
        let comparables = Self::has_comparable_attributes(schema_registry);
        if strings {
            ops.push(FilterOperator::Contains);
            ops.push(FilterOperator::StartsWith);
            ops.push(FilterOperator::EndsWith);
        }
        if comparables {
            ops.push(FilterOperator::GreaterThan);
            ops.push(FilterOperator::GreaterThanOrEqual);
            ops.push(FilterOperator::LessThan);
            ops.push(FilterOperator::LessThanOrEqual);
        }
        assert(ops@ =~= operators_for(strings, comparables));
        ops
    }

    /// Whether an attribute can be filtered on: every type but complex.
    pub fn is_attribute_filterable(attr: &AttributeDefinition) -> (r: bool)
        ensures
            r == (attr.data_type != AttributeType::Complex),
    {
        attr.data_type != AttributeType::Complex
    }

    /// The filterable attribute paths of attributes under `prefix`.
    pub fn collect_filterable_attributes(attributes: &Vec<AttributeDefinition>, prefix: &str) -> (r: Vec<String>)
        ensures
            string_views(r@) == filterable_paths(attributes@, prefix@),
    {
        collect_filterable_attributes(attributes, prefix)
    }

    /// Filtering support: for each resource type whose schema is registered,
    /// its filterable attributes; supported when there is at least one such
    /// type; at most 200 results; complex filters supported.
    pub fn discover_filter_capabilities(schema_registry: &SchemaRegistry, resource_handlers: &StrMap<String>) -> (r:
        FilterCapabilities)
        ensures
            r.max_results == Some(200usize),
            r.complex_filters_supported,
            r.supported == (r.filterable_attributes@.len() > 0),
            forall|t: Seq<char>| #[trigger] r.filterable_attributes@.contains_key(t) ==> resource_handlers@.contains_key(t),
            r.supported_operators@ == operators_for(
                registry_has_type(schema_registry.schema_seq(), |t: AttributeType| is_string_type(t)),
                registry_has_type(schema_registry.schema_seq(), |t: AttributeType| is_comparable_type(t)),
            ),
    {
        let types = resource_handlers.keys();
        proof {
            resource_handlers.lemma_keys();
        }
        let mut filterable: StrMap<Vec<String>> = StrMap::new();
        let mut i: usize = 0;
        while i < types.len()
            invariant
                i <= types@.len(),
                types@.len() == resource_handlers.key_seq().len(),
                forall|j: int| 0 <= j < types@.len() ==> types@[j]@ == resource_handlers.key_seq()[j],
                forall|j: int| 0 <= j < resource_handlers.key_seq().len() ==> resource_handlers@.contains_key(#[trigger] resource_handlers.key_seq()[j]),
                forall|t: Seq<char>| #[trigger] filterable@.contains_key(t) ==> resource_handlers@.contains_key(t),
            decreases types@.len() - i,
        {
            match resource_handlers.get(types[i].as_str()) {
                Some(schema_id) => match schema_registry.get_schema(schema_id.as_str()) {
                    Some(schema) => {
                        let attrs = collect_filterable_attributes(&schema.attributes, "");
                        let _ = filterable.insert(types[i].clone(), attrs);
                    },
                    None => {},
                },
                None => {},
            }
            i = i + 1;
        }
        let supported = filterable.len() > 0;
        FilterCapabilities {
            supported,
            max_results: Some(200),
            filterable_attributes: filterable,
            supported_operators: Self::determine_supported_operators(schema_registry),
            complex_filters_supported: true,
        }
    }

    /// Bulk operations are not supported by default.
    pub fn default_bulk_capabilities() -> (r: BulkCapabilities)
        ensures
            r == (BulkCapabilities { supported: false, max_operations: None, max_payload_size: None, fail_on_errors_supported: false }),
    {
        BulkCapabilities { supported: false, max_operations: None, max_payload_size: None, fail_on_errors_supported: false }
    }

    /// Pagination with pages of 20 by default and at most 200.
    pub fn default_pagination_capabilities() -> (r: PaginationCapabilities)
        ensures
            r == (PaginationCapabilities {
                supported: true,
                default_page_size: Some(20),
                max_page_size: Some(200),
                cursor_based_supported: false,
            }),
    {
        PaginationCapabilities { supported: true, default_page_size: Some(20), max_page_size: Some(200), cursor_based_supported: false }
    }

    /// No authentication schemes until configured.
    pub fn default_authentication_capabilities() -> (r: AuthenticationCapabilities)
        ensures
            r.schemes@.len() == 0,
            !r.mfa_supported,
            !r.token_refresh_supported,
    {
        AuthenticationCapabilities { schemes: Vec::new(), mfa_supported: false, token_refresh_supported: false }
    }

    /// Whether some resource type supports PATCH.
    pub fn patch_supported(supported_operations: &StrMap<Vec<ScimOperation>>) -> (r: bool)
        ensures
            r == exists|t: Seq<char>| #[trigger] supported_operations@.contains_key(t) && supported_operations@[t]@.contains(ScimOperation::Patch),
    {
        let n = supported_operations.len();
        proof {
            supported_operations.lemma_keys();
        }
        let mut i: usize = 0;
        while i < n
            invariant
                n == supported_operations.key_seq().len(),
                i <= n,
                forall|j: int| 0 <= j < i ==> !supported_operations@[#[trigger] supported_operations.key_seq()[j]]@.contains(ScimOperation::Patch),
            decreases n - i,
        {
            let ops = supported_operations.value_at(i);
            let mut k: usize = 0;
            while k < ops.len()
                invariant
                    i < n,
                    n == supported_operations.key_seq().len(),
                    *ops == supported_operations@[supported_operations.key_seq()[i as int]],
                    k <= ops@.len(),
                    forall|j: int| 0 <= j < k ==> ops@[j] != ScimOperation::Patch,
                decreases ops@.len() - k,
            {
                if ops[k] == ScimOperation::Patch {
                    proof {
                        supported_operations.lemma_keys();
                        assert(supported_operations@.contains_key(supported_operations.key_seq()[i as int]));
                        assert(ops@[k as int] == ScimOperation::Patch);
                    }
                    return true;
                }
                k = k + 1;
            }
            i = i + 1;
        }
        proof {
            assert forall|t: Seq<char>| #[trigger] supported_operations@.contains_key(t) implies !supported_operations@[t]@.contains(ScimOperation::Patch) by {
                supported_operations.lemma_keys();
                let j = choose|j: int| 0 <= j < supported_operations.key_seq().len() && supported_operations.key_seq()[j] == t;
                assert(!supported_operations@[supported_operations.key_seq()[j]]@.contains(ScimOperation::Patch));
            }
        }
        false
    }

    /// The capabilities of a provider from the registry, the resource types
    /// (mapped to their schema ids) and the supported operations.
    pub fn discover_capabilities(
        schema_registry: &SchemaRegistry,
        resource_handlers: &StrMap<String>,
        supported_operations: StrMap<Vec<ScimOperation>>,
    ) -> (r: Result<ProviderCapabilities, String>)
        ensures
            r matches Ok(c) && c.supported_schemas@.len() == schema_registry.schema_seq().len()
                && c.supported_resource_types@.len() == resource_handlers.key_seq().len()
                && c.bulk_capabilities == Self::default_bulk_spec()
                && c.extended_capabilities.etag_supported
                && c.extended_capabilities.patch_supported == exists|t: Seq<char>|
                #[trigger] supported_operations@.contains_key(t) && supported_operations@[t]@.contains(ScimOperation::Patch),
    {
        let supported_schemas = Self::discover_schemas(schema_registry);
        let supported_resource_types = Self::discover_resource_types(resource_handlers);
        let filter_capabilities = Self::discover_filter_capabilities(schema_registry, resource_handlers);
        let mut extended = ExtendedCapabilities::default();
        extended.etag_supported = true;
        extended.patch_supported = Self::patch_supported(&supported_operations);
        Ok(ProviderCapabilities {
            supported_operations,
            supported_schemas,
            supported_resource_types,
            bulk_capabilities: Self::default_bulk_capabilities(),
            filter_capabilities,
            pagination_capabilities: Self::default_pagination_capabilities(),
            authentication_capabilities: Self::default_authentication_capabilities(),
            extended_capabilities: extended,
        })
    }

    /// The default bulk capabilities.
    pub open spec fn default_bulk_spec() -> BulkCapabilities {
        BulkCapabilities { supported: false, max_operations: None, max_payload_size: None, fail_on_errors_supported: false }
    }

    /// Like `discover_capabilities`, with limits and features that the
    /// provider reports about itself taking the place of the defaults.
    pub fn discover_capabilities_with_introspection<P: CapabilityIntrospectable>(
        schema_registry: &SchemaRegistry,
        resource_handlers: &StrMap<String>,
        supported_operations: StrMap<Vec<ScimOperation>>,
        provider: &P,
    ) -> (r: Result<ProviderCapabilities, String>)
        ensures
            r matches Ok(c) && c.supported_schemas@.len() == schema_registry.schema_seq().len()
                && c.supported_resource_types@.len() == resource_handlers.key_seq().len(),
    {
        let supported_schemas = Self::discover_schemas(schema_registry);
        let supported_resource_types = Self::discover_resource_types(resource_handlers);
        let filter_capabilities = Self::discover_filter_capabilities(schema_registry, resource_handlers);
        let bulk_capabilities = match provider.get_bulk_limits() {
            Some(b) => b,
            None => Self::default_bulk_capabilities(),
        };
        let pagination_capabilities = match provider.get_pagination_limits() {
            Some(p) => p,
            None => Self::default_pagination_capabilities(),
        };
        let authentication_capabilities = match provider.get_authentication_capabilities() {
            Some(a) => a,
            None => Self::default_authentication_capabilities(),
        };
        let extended_capabilities = provider.get_provider_specific_capabilities();
        Ok(ProviderCapabilities {
            supported_operations,
            supported_schemas,
            supported_resource_types,
            bulk_capabilities,
            filter_capabilities,
            pagination_capabilities,
            authentication_capabilities,
            extended_capabilities,
        })
    }

    /// The service provider configuration that the capabilities describe;
    /// limits are narrowed to the configuration's integer widths.
    pub fn generate_service_provider_config(capabilities: &ProviderCapabilities) -> (r: ServiceProviderConfig)
        ensures
            r.patch_supported == capabilities.extended_capabilities.patch_supported,
            r.bulk_supported == capabilities.bulk_capabilities.supported,
            r.filter_supported == capabilities.filter_capabilities.supported,
            r.change_password_supported == capabilities.extended_capabilities.change_password_supported,
            r.sort_supported == capabilities.extended_capabilities.sort_supported,
            r.etag_supported == capabilities.extended_capabilities.etag_supported,
            r.bulk_max_operations == match capabilities.bulk_capabilities.max_operations {
                Some(n) => Some(n as u32),
                None => None,
            },
            r.bulk_max_payload_size == match capabilities.bulk_capabilities.max_payload_size {
                Some(n) => Some(n as u64),
                None => None,
            },
            r.filter_max_results == match capabilities.filter_capabilities.max_results {
                Some(n) => Some(n as u32),
                None => None,
            },
    {
        ServiceProviderConfig {
            patch_supported: capabilities.extended_capabilities.patch_supported,
            bulk_supported: capabilities.bulk_capabilities.supported,
            filter_supported: capabilities.filter_capabilities.supported,
            change_password_supported: capabilities.extended_capabilities.change_password_supported,
            sort_supported: capabilities.extended_capabilities.sort_supported,
            etag_supported: capabilities.extended_capabilities.etag_supported,
            authentication_schemes: capabilities.authentication_capabilities.schemes.clone(),
            bulk_max_operations: match capabilities.bulk_capabilities.max_operations {
                Some(n) => Some(#[verifier::truncate] (n as u32)),
                None => None,
            },
            bulk_max_payload_size: match capabilities.bulk_capabilities.max_payload_size {
                Some(n) => Some(n as u64),
                None => None,
            },
            filter_max_results: match capabilities.filter_capabilities.max_results {
                Some(n) => Some(#[verifier::truncate] (n as u32)),
                None => None,
            },
        }
    }
}

impl Default for BulkCapabilities {
    fn default() -> (r: Self)
        ensures
            r == CapabilityDiscovery::default_bulk_spec(),
    {
        BulkCapabilities { supported: false, max_operations: None, max_payload_size: None, fail_on_errors_supported: false }
    }
}

impl Default for FilterCapabilities {
    fn default() -> (r: Self)
        ensures
            !r.supported,
            r.max_results == Some(200usize),
            r.filterable_attributes@ == Map::<Seq<char>, Vec<String>>::empty(),
            r.supported_operators@ == seq![FilterOperator::Equal, FilterOperator::Present],
            !r.complex_filters_supported,
    {
        FilterCapabilities {
            supported: false,
            max_results: Some(200),
            filterable_attributes: StrMap::new(),
            supported_operators: vec![FilterOperator::Equal, FilterOperator::Present],
            complex_filters_supported: false,
        }
    }
}

impl Default for PaginationCapabilities {
    fn default() -> (r: Self)
        ensures
            r == (PaginationCapabilities {
                supported: true,
                default_page_size: Some(20),
                max_page_size: Some(200),
                cursor_based_supported: false,
            }),
    {
        PaginationCapabilities { supported: true, default_page_size: Some(20), max_page_size: Some(200), cursor_based_supported: false }
    }
}

impl Default for AuthenticationCapabilities {
    fn default() -> (r: Self)
        ensures
            r.schemes@.len() == 0,
            !r.mfa_supported,
            !r.token_refresh_supported,
    {
        AuthenticationCapabilities { schemes: Vec::new(), mfa_supported: false, token_refresh_supported: false }
    }
}

impl Default for ExtendedCapabilities {
    fn default() -> (r: Self)
        ensures
            r.etag_supported,
            !r.patch_supported,
            !r.change_password_supported,
            !r.sort_supported,
            r.custom_capabilities@ == Map::<Seq<char>, JsonValue>::empty(),
    {
        ExtendedCapabilities {
            etag_supported: true,
            patch_supported: false,
            change_password_supported: false,
            sort_supported: false,
            custom_capabilities: StrMap::new(),
        }
    }
}

} // verus!
