//! The decisions of a tenant configuration store kept in a database: the
//! listing query it sends, the page it makes of the rows that come back,
//! and the fields it reads from a configuration row. Sending the queries
//! is left to the caller.

use vstd::prelude::*;
use crate::collections::StrMap;
use crate::ids::{format_rfc3339, parse_rfc3339, rfc3339_instant, rfc3339_rendering, rfc3339_text};
use crate::json::{Json, JsonValue, json_i64};
use crate::multi_tenant::config_provider::{ConfigurationQuery, ConfigurationQueryResult, SortOrder};
use crate::multi_tenant::configuration::{ConfigurationError, TenantConfiguration};
use crate::multi_tenant::database::{DatabaseParameter, signed_text};
use crate::resource::opt_view;
use crate::text::{concat, decimal, decimal_string, owned};

verus! {

/// The text of the listing query before its conditions.
pub open spec fn listing_base() -> Seq<char> {
    "\n            SELECT tenant_id, display_name, created_at, last_modified, version,\n                   schema_config, operational_config, compliance_config, branding_config\n            FROM tenant_configurations\n        "@
}

/// `n` placeholders separated by commas.
pub open spec fn placeholders(n: nat) -> Seq<char>
    decreases n,
{
    if n == 0 {
        Seq::empty()
    } else if n == 1 {
        "?"@
    } else {
        placeholders((n - 1) as nat) + ", ?"@
    }
}

/// Texts joined by a separator.
pub open spec fn joined(parts: Seq<Seq<char>>, sep: Seq<char>) -> Seq<char>
    decreases parts.len(),
{
    if parts.len() == 0 {
        Seq::empty()
    } else if parts.len() == 1 {
        parts[0]
    } else {
        joined(parts.drop_last(), sep) + sep + parts.last()
    }
}

/// The conditions of a listing query, in order.
pub open spec fn listing_conditions(q: ConfigurationQuery) -> Seq<Seq<char>> {
    let a: Seq<Seq<char>> = match q.tenant_ids {
        Some(ids) => seq!["tenant_id IN ("@ + placeholders(ids@.len()) + ")"@],
        None => Seq::empty(),
    };
    let b = if q.display_name_filter is Some {
        a.push("display_name LIKE ?"@)
    } else {
        a
    };
    let c = if q.modified_after is Some {
        b.push("last_modified > ?"@)
    } else {
        b
    };
    if q.modified_before is Some {
        c.push("last_modified < ?"@)
    } else {
        c
    }
}

/// The column and direction a listing is ordered by.
pub open spec fn order_terms(order: SortOrder) -> (Seq<char>, Seq<char>) {
    match order {
        SortOrder::TenantIdAsc => ("tenant_id"@, "ASC"@),
        SortOrder::TenantIdDesc => ("tenant_id"@, "DESC"@),
        SortOrder::DisplayNameAsc => ("display_name"@, "ASC"@),
        SortOrder::DisplayNameDesc => ("display_name"@, "DESC"@),
        SortOrder::LastModifiedAsc => ("last_modified"@, "ASC"@),
        SortOrder::LastModifiedDesc => ("last_modified"@, "DESC"@),
        SortOrder::CreatedAsc => ("created_at"@, "ASC"@),
        SortOrder::CreatedDesc => ("created_at"@, "DESC"@),
    }
}

/// The page size of a listing: the query's limit, 100 by default, at most 1000.
pub open spec fn listing_limit(q: ConfigurationQuery) -> usize {
    let l = match q.limit {
        Some(l) => l,
        None => 100usize,
    };
    if l < 1000 {
        l
    } else {
        1000usize
    }
}

/// The offset of a listing: the query's offset, 0 by default.
pub open spec fn listing_offset(q: ConfigurationQuery) -> usize {
    match q.offset {
        Some(o) => o,
        None => 0usize,
    }
}

/// The SQL text of a listing query.
pub open spec fn listing_sql(q: ConfigurationQuery) -> Seq<char> {
    let conds = listing_conditions(q);
    let with_where = if conds.len() > 0 {
        listing_base() + " WHERE "@ + joined(conds, " AND "@)
    } else {
        listing_base()
    };
    with_where + " ORDER BY "@ + order_terms(q.sort_order).0 + " "@ + order_terms(q.sort_order).1 + " LIMIT "@
        + decimal(listing_limit(q) as nat) + " OFFSET "@ + decimal(listing_offset(q) as nat)
}

/// The parameters of a listing query, as text, in order.
pub open spec fn listing_params(q: ConfigurationQuery) -> Seq<Seq<char>> {
    let a: Seq<Seq<char>> = match q.tenant_ids {
        Some(ids) => Seq::new(ids@.len(), |i: int| ids@[i]@),
        None => Seq::empty(),
    };
    let b = match q.display_name_filter {
        Some(p) => a.push("%"@ + p@ + "%"@),
        None => a,
    };
    let c = match q.modified_after {
        Some(t) => b.push(rfc3339_text(t)),
        None => b,
    };
    let d = match q.modified_before {
        Some(t) => c.push(rfc3339_text(t)),
        None => c,
    };
    d.push(signed_text((listing_limit(q) as i64) as int)).push(signed_text((listing_offset(q) as i64) as int))
}

/// Whether chrono renders the instants of a query's time filters.
pub open spec fn listing_renders(q: ConfigurationQuery) -> bool {
    &&& (q.modified_after matches Some(t) ==> rfc3339_rendering(t) is Some)
    &&& (q.modified_before matches Some(t) ==> rfc3339_rendering(t) is Some)
}

/// A listing query: its SQL text, its parameters, and its page bounds.
#[derive(Debug)]
pub struct ConfigurationListing {
    pub sql: String,
    pub params: Vec<String>,
    pub limit: usize,
    pub offset: usize,
}

fn placeholders_text(n: usize) -> (r: String)
    ensures
        r@ == placeholders(n as nat),
{
    if n == 0 {
        return String::new();
    }
    let mut out = owned("?");
    let mut i: usize = 1;
    while i < n
        invariant
            1 <= i <= n,
            out@ == placeholders(i as nat),
        decreases n - i,
    {
        out = concat(out.as_str(), ", ?");
        i = i + 1;
    }
    out
}

/// The views of a vector of strings.
pub open spec fn texts(v: Seq<String>) -> Seq<Seq<char>> {
    Seq::new(v.len(), |i: int| v[i]@)
}

fn condition_texts(query: &ConfigurationQuery) -> (r: Vec<String>)
    ensures
        texts(r@) == listing_conditions(*query),
{
    let mut conds: Vec<String> = Vec::new();
    match &query.tenant_ids {
        Some(ids) => {
            let a = concat("tenant_id IN (", placeholders_text(ids.len()).as_str());
            conds.push(concat(a.as_str(), ")"));
        },
        None => {},
    }
    let ghost c0 = texts(conds@);
    if query.display_name_filter.is_some() {
        conds.push(owned("display_name LIKE ?"));
    }
    let ghost c1 = texts(conds@);
    assert(c1 =~= if query.display_name_filter is Some { c0.push("display_name LIKE ?"@) } else { c0 });
    if query.modified_after.is_some() {
        conds.push(owned("last_modified > ?"));
    }
    let ghost c2 = texts(conds@);
    assert(c2 =~= if query.modified_after is Some { c1.push("last_modified > ?"@) } else { c1 });
    if query.modified_before.is_some() {
        conds.push(owned("last_modified < ?"));
    }
    assert(texts(conds@) =~= if query.modified_before is Some { c2.push("last_modified < ?"@) } else { c2 });
    assert(c0 =~= match query.tenant_ids {
        Some(ids) => seq!["tenant_id IN ("@ + placeholders(ids@.len()) + ")"@],
        None => Seq::<Seq<char>>::empty(),
    });
    conds
}

fn parameter_texts(query: &ConfigurationQuery, limit: usize, offset: usize) -> (r: Option<Vec<String>>)
    requires
        limit == listing_limit(*query),
        offset == listing_offset(*query),
    ensures
        r matches Some(v) ==> texts(v@) == listing_params(*query),
        r is Some <==> listing_renders(*query),
{
    let mut params: Vec<String> = Vec::new();
    match &query.tenant_ids {
        Some(ids) => {
            let mut i: usize = 0;
            while i < ids.len()
                invariant
                    i <= ids@.len(),
                    params@.len() == i,
                    forall|j: int| 0 <= j < i ==> (#[trigger] params@[j])@ == ids@[j]@,
                decreases ids@.len() - i,
            {
                params.push(ids[i].clone());
                i = i + 1;
            }
        },
        None => {},
    }
    let ghost p0 = texts(params@);
    assert(p0 =~= match query.tenant_ids {
        Some(ids) => Seq::new(ids@.len(), |i: int| ids@[i]@),
        None => Seq::<Seq<char>>::empty(),
    });
    match &query.display_name_filter {
        Some(p) => {
            let a = concat("%", p.as_str());
            params.push(concat(a.as_str(), "%"));
        },
        None => {},
    }
    let ghost p1 = texts(params@);
    assert(p1 =~= match query.display_name_filter {
        Some(p) => p0.push("%"@ + p@ + "%"@),
        None => p0,
    });
    match query.modified_after {
        Some(t) => match format_rfc3339(t) {
            Some(s) => params.push(s),
            None => {
                return None;
            },
        },
        None => {},
    }
    let ghost p2 = texts(params@);
    assert(p2 =~= match query.modified_after {
        Some(t) => p1.push(rfc3339_text(t)),
        None => p1,
    });
    match query.modified_before {
        Some(t) => match format_rfc3339(t) {
            Some(s) => params.push(s),
            None => {
                return None;
            },
        },
        None => {},
    }
    let ghost p3 = texts(params@);
    assert(p3 =~= match query.modified_before {
        Some(t) => p2.push(rfc3339_text(t)),
        None => p2,
    });
    let limit_param: i64 = limit as i64;
    let offset_param: i64 = offset as i64;
    params.push(limit_param.as_string());
    params.push(offset_param.as_string());
    assert(texts(params@) =~= p3.push(signed_text(limit_param as int)).push(signed_text(offset_param as int)));
    Some(params)
}

fn join_conditions(conds: &Vec<String>) -> (r: String)
    requires
        conds@.len() > 0,
    ensures
        r@ == joined(texts(conds@), " AND "@),
{
    let ghost cv = texts(conds@);
    let mut joined_text = conds[0].clone();
    let mut i: usize = 1;
    assert(cv.take(1) =~= seq![cv[0]]);
    while i < conds.len()
        invariant
            1 <= i <= conds@.len(),
            cv == texts(conds@),
            joined_text@ == joined(cv.take(i as int), " AND "@),
        decreases conds@.len() - i,
    {
        assert(cv.take(i + 1).drop_last() =~= cv.take(i as int));
        let a = concat(joined_text.as_str(), " AND ");
        joined_text = concat(a.as_str(), conds[i].as_str());
        i = i + 1;
    }
    assert(cv.take(conds@.len() as int) =~= cv);
    joined_text
}

fn order_text(order: SortOrder) -> (r: (&'static str, &'static str))
    ensures
        (r.0@, r.1@) == order_terms(order),
{
    match order {
        SortOrder::TenantIdAsc => ("tenant_id", "ASC"),
        SortOrder::TenantIdDesc => ("tenant_id", "DESC"),
        SortOrder::DisplayNameAsc => ("display_name", "ASC"),
        SortOrder::DisplayNameDesc => ("display_name", "DESC"),
        SortOrder::LastModifiedAsc => ("last_modified", "ASC"),
        SortOrder::LastModifiedDesc => ("last_modified", "DESC"),
        SortOrder::CreatedAsc => ("created_at", "ASC"),
        SortOrder::CreatedDesc => ("created_at", "DESC"),
    }
}

/// The listing query for `query`. The instants of the query are rendered
/// as RFC 3339 text; `None` exactly when one of them has no such rendering.
pub fn configuration_listing(query: &ConfigurationQuery) -> (r: Option<ConfigurationListing>)
    ensures
        r matches Some(l) ==> l.sql@ == listing_sql(*query) && texts(l.params@) == listing_params(*query) && l.limit
            == listing_limit(*query) && l.offset == listing_offset(*query),
        r is Some <==> listing_renders(*query),
{
    let requested = match query.limit {
        Some(l) => l,
        None => 100,
    };
    let limit: usize = if requested < 1000 {
        requested
    } else {
        1000
    };
    let offset: usize = match query.offset {
        Some(o) => o,
        None => 0,
    };
    let params = match parameter_texts(query, limit, offset) {
        Some(p) => p,
        None => {
            return None;
        },
    };
    let conds = condition_texts(query);
    let base = owned("\n            SELECT tenant_id, display_name, created_at, last_modified, version,\n                   schema_config, operational_config, compliance_config, branding_config\n            FROM tenant_configurations\n        ");
    let with_where = if conds.len() > 0 {
        let a = concat(base.as_str(), " WHERE ");
        concat(a.as_str(), join_conditions(&conds).as_str())
    } else {
        base
    };
    let (field, direction) = order_text(query.sort_order);
    let a = concat(with_where.as_str(), " ORDER BY ");
    let b = concat(a.as_str(), field);
    let c = concat(b.as_str(), " ");
    let d = concat(c.as_str(), direction);
    let e = concat(d.as_str(), " LIMIT ");
    let f = concat(e.as_str(), decimal_string(limit as u64).as_str());
    let g = concat(f.as_str(), " OFFSET ");
    let sql = concat(g.as_str(), decimal_string(offset as u64).as_str());
    Some(ConfigurationListing { sql, params, limit, offset })
}

/// Whether a listing needs the count of all stored configurations: only a
/// full page does, since a short one ends the listing and its total is the
/// offset plus its rows.
pub fn listing_needs_count(returned: usize, limit: usize) -> (r: bool)
    ensures
        r == (returned >= limit),
{
    returned >= limit
}

/// The page made of the rows of a listing: the configurations, the total
/// count (the offset plus the rows when the page is short, else
/// `full_count`), whether the page is full, and where the next one starts.
pub fn listing_result(
    configurations: Vec<TenantConfiguration>,
    limit: usize,
    offset: usize,
    full_count: usize,
) -> (r: ConfigurationQueryResult)
    requires
        offset + configurations@.len() <= usize::MAX,
        offset + limit <= usize::MAX,
    ensures
        r.configurations == configurations,
        r.total_count == if configurations@.len() < limit {
            offset + configurations@.len()
        } else {
            full_count as int
        },
        r.has_more == (configurations@.len() == limit),
        r.next_offset == if configurations@.len() == limit {
            Some((offset + limit) as usize)
        } else {
            None
        },
{
    let n = configurations.len();
    let total_count = if n < limit {
        offset + n
    } else {
        full_count
    };
    ConfigurationQueryResult {
        configurations,
        total_count,
        has_more: n == limit,
        next_offset: if n == limit {
            Some(offset + limit)
        } else {
            None
        },
    }
}

/// The fields of a configuration row, with the four sections as the JSON
/// text they are stored in (absent when the row does not hold text there).
#[derive(Debug)]
pub struct ConfigurationRow {
    pub tenant_id: String,
    pub display_name: String,
    pub created_at: i64,
    pub last_modified: i64,
    pub version: u64,
    pub schema_config: Option<String>,
    pub operational_config: Option<String>,
    pub compliance_config: Option<String>,
    pub branding_config: Option<String>,
}

/// The text a row holds under a column, if it holds text there.
pub open spec fn row_text(row: StrMap<JsonValue>, column: Seq<char>) -> Option<Seq<char>> {
    if row@.contains_key(column) {
        match row@[column]@ {
            Json::Str(s) => Some(s),
            _ => None,
        }
    } else {
        None
    }
}

/// The integer a row holds under a column, if it holds one in range.
pub open spec fn row_i64(row: StrMap<JsonValue>, column: Seq<char>) -> Option<i64> {
    if row@.contains_key(column) {
        json_i64(row@[column]@)
    } else {
        None
    }
}

/// Whether `e` is the validation error with message `m`.
pub open spec fn row_error(e: ConfigurationError, m: Seq<char>) -> bool {
    e matches ConfigurationError::ValidationError { message } && message@ == m
}

/// How a row is read, given the instants read from its two time columns:
/// the first missing or unreadable column gives its error.
pub open spec fn row_read(
    row: StrMap<JsonValue>,
    created_at: Option<i64>,
    last_modified: Option<i64>,
    r: Result<ConfigurationRow, ConfigurationError>,
) -> bool {
    if row_text(row, "tenant_id"@) is None {
        r matches Err(e) && row_error(e, "Missing tenant_id in database row"@)
    } else if row_text(row, "display_name"@) is None {
        r matches Err(e) && row_error(e, "Missing display_name in database row"@)
    } else if created_at is None {
        r matches Err(e) && row_error(e, "Invalid created_at in database row"@)
    } else if last_modified is None {
        r matches Err(e) && row_error(e, "Invalid last_modified in database row"@)
    } else if row_i64(row, "version"@) is None {
        r matches Err(e) && row_error(e, "Invalid version in database row"@)
    } else {
        r matches Ok(c) && {
            &&& Some(c.tenant_id@) == row_text(row, "tenant_id"@)
            &&& Some(c.display_name@) == row_text(row, "display_name"@)
            &&& Some(c.created_at) == created_at
            &&& Some(c.last_modified) == last_modified
            &&& c.version == (row_i64(row, "version"@)->0 as u64)
            &&& opt_view(c.schema_config) == row_text(row, "schema_config"@)
            &&& opt_view(c.operational_config) == row_text(row, "operational_config"@)
            &&& opt_view(c.compliance_config) == row_text(row, "compliance_config"@)
            &&& opt_view(c.branding_config) == row_text(row, "branding_config"@)
        }
    }
}

/// The text a row holds under a column.
fn text_of(row: &StrMap<JsonValue>, column: &str) -> (r: Option<String>)
    ensures
        opt_view(r) == row_text(*row, column@),
{
    match row.get(column) {
        Some(v) => match v.as_str() {
            Some(s) => Some(s.clone()),
            None => None,
        },
        None => None,
    }
}

/// The instant a row holds under a time column, read as RFC 3339 text.
pub open spec fn row_instant(row: StrMap<JsonValue>, column: Seq<char>) -> Option<i64> {
    match row_text(row, column) {
        Some(t) => rfc3339_instant(t),
        None => None,
    }
}

fn instant_of(row: &StrMap<JsonValue>, column: &str) -> (r: Option<i64>)
    ensures
        r == row_instant(*row, column@),
{
    match text_of(row, column) {
        Some(t) => parse_rfc3339(t.as_str()),
        None => None,
    }
}

/// Reads the fields of a configuration row, given the instants read from
/// its `created_at` and `last_modified` columns.
pub fn configuration_row_from(
    row: &StrMap<JsonValue>,
    created_at: Option<i64>,
    last_modified: Option<i64>,
) -> (r: Result<ConfigurationRow, ConfigurationError>)
    ensures
        row_read(*row, created_at, last_modified, r),
{
    let tenant_id = match text_of(row, "tenant_id") {
        Some(t) => t,
        None => {
            return Err(ConfigurationError::ValidationError { message: owned("Missing tenant_id in database row") });
        },
    };
    let display_name = match text_of(row, "display_name") {
        Some(t) => t,
        None => {
            return Err(ConfigurationError::ValidationError { message: owned("Missing display_name in database row") });
        },
    };
    let created_at = match created_at {
        Some(t) => t,
        None => {
            return Err(ConfigurationError::ValidationError { message: owned("Invalid created_at in database row") });
        },
    };
    let last_modified = match last_modified {
        Some(t) => t,
        None => {
            return Err(ConfigurationError::ValidationError { message: owned("Invalid last_modified in database row") });
        },
    };
    let version = match row.get("version") {
        Some(v) => match v.as_i64() {
            Some(n) => n as u64,
            None => {
                return Err(ConfigurationError::ValidationError { message: owned("Invalid version in database row") });
            },
        },
        None => {
            return Err(ConfigurationError::ValidationError { message: owned("Invalid version in database row") });
        },
    };
    Ok(
        ConfigurationRow {
            tenant_id,
            display_name,
            created_at,
            last_modified,
            version,
            schema_config: text_of(row, "schema_config"),
            operational_config: text_of(row, "operational_config"),
            compliance_config: text_of(row, "compliance_config"),
            branding_config: text_of(row, "branding_config"),
        },
    )
}

/// Reads the fields of a configuration row; its time columns are read as
/// RFC 3339 text.
pub fn configuration_row(row: &StrMap<JsonValue>) -> (r: Result<ConfigurationRow, ConfigurationError>)
    ensures
        row_read(*row, row_instant(*row, "created_at"@), row_instant(*row, "last_modified"@), r),
{
    let created_at = instant_of(row, "created_at");
    let last_modified = instant_of(row, "last_modified");
    configuration_row_from(row, created_at, last_modified)
}

} // verus!
