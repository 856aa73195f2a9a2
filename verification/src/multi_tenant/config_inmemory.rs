//! In-memory storage of tenant configurations with optimistic versioning.
//!
//! Creating a configuration gives it version 1; every update must name the
//! stored version and increments it; a delete may name the version it
//! expects. Listing filters, sorts (stably) and paginates.

use vstd::prelude::*;
use crate::collections::StrMap;
use crate::ids::now_micros;
use crate::multi_tenant::database::{DatabaseParameter, signed_text};
use crate::multi_tenant::config_provider::{
    BulkConfigurationOperation, BulkOperationResult, ConfigurationQuery, ConfigurationQueryResult,
    ConfigurationStats, ConfigurationValidator, MAX_CONFIG_SIZE, SortOrder, ValidationContext, error_text, size_message,
    tenant_id_problem,
};
use crate::multi_tenant::configuration::{
    ConfigErrorModel, ConfigSummary, ConfigurationError, TenantConfiguration, configuration_problem,
    strings_contain, vec_contains,
};
use crate::text::{
    concat, contains_seq, contains_str, decimal, decimal_string, lemma_str_less_total,
    lemma_str_less_transitive, str_less, string_less, to_lowercase, unicode_lowercase,
};

verus! {

broadcast use vstd::seq_lib::group_to_multiset_ensures;

/// Settings of the in-memory configuration provider.
#[derive(Debug, Clone)]
pub struct ProviderSettings {
    pub enable_persistence: bool,
    pub persistence_file: Option<String>,
    pub max_configurations: Option<usize>,
    pub enable_detailed_stats: bool,
    pub auto_save_interval_secs: u64,
}

impl Default for ProviderSettings {
    fn default() -> (r: Self)
        ensures
            !r.enable_persistence,
            r.persistence_file is None,
            r.max_configurations == Some(10000usize),
            r.enable_detailed_stats,
            r.auto_save_interval_secs == 0,
    {
        ProviderSettings {
            enable_persistence: false,
            persistence_file: None,
            max_configurations: Some(10000),
            enable_detailed_stats: true,
            auto_save_interval_secs: 0,
        }
    }
}

/// The query with no filter, no pagination, ordered by tenant id.
pub open spec fn default_query() -> ConfigurationQuery {
    ConfigurationQuery {
        tenant_ids: None,
        display_name_filter: None,
        modified_after: None,
        modified_before: None,
        offset: None,
        limit: None,
        sort_order: SortOrder::TenantIdAsc,
    }
}

/// A count stopped at the largest `u64`.
pub open spec fn saturated_u64(n: int) -> u64 {
    if n > u64::MAX {
        u64::MAX
    } else {
        n as u64
    }
}

/// Whether a configuration matches the filters of a query.
pub open spec fn config_matches(c: TenantConfiguration, q: ConfigurationQuery) -> bool {
    &&& (q.tenant_ids matches Some(ids) ==> strings_contain(ids@, c.tenant_id@))
    &&& (q.display_name_filter matches Some(f) ==> contains_seq(
        unicode_lowercase(c.display_name@),
        unicode_lowercase(f@),
    ))
    &&& (q.modified_after matches Some(a) ==> c.last_modified > a)
    &&& (q.modified_before matches Some(b) ==> c.last_modified < b)
}

/// Whether `a` comes strictly before `b` in the order.
pub open spec fn config_before(a: TenantConfiguration, b: TenantConfiguration, order: SortOrder) -> bool {
    match order {
        SortOrder::TenantIdAsc => str_less(a.tenant_id@, b.tenant_id@),
        SortOrder::TenantIdDesc => str_less(b.tenant_id@, a.tenant_id@),
        SortOrder::DisplayNameAsc => str_less(a.display_name@, b.display_name@),
        SortOrder::DisplayNameDesc => str_less(b.display_name@, a.display_name@),
        SortOrder::LastModifiedAsc => a.last_modified < b.last_modified,
        SortOrder::LastModifiedDesc => b.last_modified < a.last_modified,
        SortOrder::CreatedAsc => a.created_at < b.created_at,
        SortOrder::CreatedDesc => b.created_at < a.created_at,
    }
}

/// Whether no configuration of `s` comes before an earlier one.
pub open spec fn sorted_configs(s: Seq<TenantConfiguration>, order: SortOrder) -> bool {
    forall|i: int, j: int| 0 <= i < j < s.len() ==> !config_before(#[trigger] s[j], #[trigger] s[i], order)
}

/// The page starting at `offset` with at most `limit` items.
pub open spec fn page_of<T>(s: Seq<T>, offset: nat, limit: nat) -> Seq<T> {
    if offset >= s.len() {
        Seq::empty()
    } else if limit < s.len() - offset {
        s.subrange(offset as int, (offset + limit) as int)
    } else {
        s.subrange(offset as int, s.len() as int)
    }
}

/// The summaries of configurations.
pub open spec fn summaries(s: Seq<TenantConfiguration>) -> Seq<ConfigSummary> {
    Seq::new(s.len(), |i: int| s[i].summary())
}

/// The configurations behind references.
pub open spec fn derefs(s: Seq<&TenantConfiguration>) -> Seq<TenantConfiguration> {
    Seq::new(s.len(), |i: int| *s[i])
}

/// The order is a strict order: asymmetric and transitive.
pub proof fn lemma_config_before(a: TenantConfiguration, b: TenantConfiguration, c: TenantConfiguration, order: SortOrder)
    ensures
        !(config_before(a, b, order) && config_before(b, a, order)),
        config_before(a, b, order) && config_before(b, c, order) ==> config_before(a, c, order),
{
    lemma_str_less_total(a.tenant_id@, b.tenant_id@);
    lemma_str_less_total(a.display_name@, b.display_name@);
    match order {
        SortOrder::TenantIdAsc => if str_less(a.tenant_id@, b.tenant_id@) && str_less(b.tenant_id@, c.tenant_id@) {
            lemma_str_less_transitive(a.tenant_id@, b.tenant_id@, c.tenant_id@);
        },
        SortOrder::TenantIdDesc => if str_less(b.tenant_id@, a.tenant_id@) && str_less(c.tenant_id@, b.tenant_id@) {
            lemma_str_less_transitive(c.tenant_id@, b.tenant_id@, a.tenant_id@);
        },
        SortOrder::DisplayNameAsc => if str_less(a.display_name@, b.display_name@) && str_less(b.display_name@, c.display_name@) {
            lemma_str_less_transitive(a.display_name@, b.display_name@, c.display_name@);
        },
        SortOrder::DisplayNameDesc => if str_less(b.display_name@, a.display_name@) && str_less(c.display_name@, b.display_name@) {
            lemma_str_less_transitive(c.display_name@, b.display_name@, a.display_name@);
        },
        _ => {},
    }
}

fn comes_before(a: &TenantConfiguration, b: &TenantConfiguration, order: SortOrder) -> (r: bool)
    ensures
        r == config_before(*a, *b, order),
{
    match order {
        SortOrder::TenantIdAsc => string_less(a.tenant_id.as_str(), b.tenant_id.as_str()),
        SortOrder::TenantIdDesc => string_less(b.tenant_id.as_str(), a.tenant_id.as_str()),
        SortOrder::DisplayNameAsc => string_less(a.display_name.as_str(), b.display_name.as_str()),
        SortOrder::DisplayNameDesc => string_less(b.display_name.as_str(), a.display_name.as_str()),
        SortOrder::LastModifiedAsc => a.last_modified < b.last_modified,
        SortOrder::LastModifiedDesc => b.last_modified < a.last_modified,
        SortOrder::CreatedAsc => a.created_at < b.created_at,
        SortOrder::CreatedDesc => b.created_at < a.created_at,
    }
}

fn query_matches(c: &TenantConfiguration, q: &ConfigurationQuery) -> (r: bool)
    ensures
        r == config_matches(*c, *q),
{
    match &q.tenant_ids {
        Some(ids) => {
            if !vec_contains(ids, c.tenant_id.as_str()) {
                return false;
            }
        },
        None => {},
    }
    match &q.display_name_filter {
        Some(f) => {
            let name = to_lowercase(c.display_name.as_str());
            let needle = to_lowercase(f.as_str());
            if !contains_str(name.as_str(), needle.as_str()) {
                return false;
            }
        },
        None => {},
    }
    match q.modified_after {
        Some(a) => {
            if c.last_modified <= a {
                return false;
            }
        },
        None => {},
    }
    match q.modified_before {
        Some(b) => {
            if c.last_modified >= b {
                return false;
            }
        },
        None => {},
    }
    true
}

/// Sorts configurations stably by the order.
pub fn sort_configurations<'a>(items: Vec<&'a TenantConfiguration>, order: SortOrder) -> (r: Vec<&'a TenantConfiguration>)
    ensures
        derefs(r@).to_multiset() == derefs(items@).to_multiset(),
        sorted_configs(derefs(r@), order),
{
    let mut out: Vec<&'a TenantConfiguration> = Vec::new();
    let mut i: usize = 0;
    assert(derefs(items@).take(0) =~= Seq::<TenantConfiguration>::empty());
    assert(derefs(out@) =~= Seq::<TenantConfiguration>::empty());
    while i < items.len()
        invariant
            i <= items@.len(),
            derefs(out@).to_multiset() == derefs(items@).take(i as int).to_multiset(),
            sorted_configs(derefs(out@), order),
        decreases items@.len() - i,
    {
        let x = items[i];
        let mut p: usize = 0;
        while p < out.len() && !comes_before(x, out[p], order)
            invariant
                p <= out@.len(),
                forall|k: int| 0 <= k < p ==> !config_before(*x, #[trigger] derefs(out@)[k], order),
            decreases out@.len() - p,
        {
            p = p + 1;
        }
        let ghost before = derefs(out@);
        out.insert(p, x);
        proof {
            let after = derefs(out@);
            assert(after =~= before.insert(p as int, *x));
            assert(derefs(items@).take(i + 1) =~= derefs(items@).take(i as int).push(*x));
            assert forall|a: int, b: int| 0 <= a < b < after.len() implies !config_before(#[trigger] after[b], #[trigger] after[a], order) by {
                if b < p {
                    assert(after[a] == before[a] && after[b] == before[b]);
                } else if b == p {
                    assert(after[b] == *x && after[a] == before[a]);
                } else if a == p {
                    assert(after[a] == *x && after[b] == before[b - 1]);
                    assert(p < before.len());
                    assert(config_before(*x, before[p as int], order));
                    if b - 1 > p {
                        assert(!config_before(before[b - 1], before[p as int], order));
                    }
                    lemma_config_before(before[b - 1], *x, before[p as int], order);
                } else if a < p {
                    assert(after[a] == before[a] && after[b] == before[b - 1]);
                } else {
                    assert(after[a] == before[a - 1] && after[b] == before[b - 1]);
                }
            }
        }
        i = i + 1;
    }
    assert(derefs(items@).take(items@.len() as int) =~= derefs(items@));
    out
}

/// Configurations by tenant id, with settings.
pub struct InMemoryConfigurationProvider {
    configurations: StrMap<TenantConfiguration>,
    settings: ProviderSettings,
    cache_hits: u64,
    cache_misses: u64,
    evictions: u64,
}

/// The failure of a create, if any, against stored configurations `m`.
pub open spec fn create_problem(
    m: Map<Seq<char>, TenantConfiguration>,
    settings: ProviderSettings,
    c: TenantConfiguration,
    size: usize,
) -> Option<ConfigErrorModel> {
    if tenant_id_problem(c.tenant_id@) is Some {
        Some(ConfigErrorModel::ValidationError(tenant_id_problem(c.tenant_id@)->0))
    } else if configuration_problem(c) is Some {
        Some(ConfigErrorModel::ValidationError(configuration_problem(c)->0))
    } else if size > MAX_CONFIG_SIZE {
        Some(ConfigErrorModel::ValidationError(size_message(size as nat)))
    } else if settings.max_configurations matches Some(max) && m.len() >= max {
        Some(ConfigErrorModel::ValidationError(
            "Maximum configuration limit ("@ + decimal(settings.max_configurations->0 as nat) + ") reached"@,
        ))
    } else if m.contains_key(c.tenant_id@) {
        Some(ConfigErrorModel::Conflict("Configuration already exists for tenant: "@ + c.tenant_id@))
    } else {
        None
    }
}

/// The configuration stored by a create at instant `now`.
pub open spec fn created_config(c: TenantConfiguration, now: i64) -> TenantConfiguration {
    TenantConfiguration { created_at: now, last_modified: now, version: 1, ..c }
}

/// The failure of an update, if any, against stored configurations `m`.
pub open spec fn update_problem(
    m: Map<Seq<char>, TenantConfiguration>,
    c: TenantConfiguration,
    size: usize,
) -> Option<ConfigErrorModel> {
    if tenant_id_problem(c.tenant_id@) is Some {
        Some(ConfigErrorModel::ValidationError(tenant_id_problem(c.tenant_id@)->0))
    } else if configuration_problem(c) is Some {
        Some(ConfigErrorModel::ValidationError(configuration_problem(c)->0))
    } else if size > MAX_CONFIG_SIZE {
        Some(ConfigErrorModel::ValidationError(size_message(size as nat)))
    } else if !m.contains_key(c.tenant_id@) {
        Some(ConfigErrorModel::NotFound(c.tenant_id@))
    } else if c.version != m[c.tenant_id@].version {
        Some(ConfigErrorModel::VersionMismatch(m[c.tenant_id@].version, c.version))
    } else {
        None
    }
}

/// The configuration stored by an update at instant `now`.
pub open spec fn updated_config(c: TenantConfiguration, now: i64) -> TenantConfiguration {
    TenantConfiguration { last_modified: now, version: (c.version + 1) as u64, ..c }
}

/// The failure of a delete, if any, against stored configurations `m`.
pub open spec fn delete_problem(
    m: Map<Seq<char>, TenantConfiguration>,
    tenant_id: Seq<char>,
    expected: Option<u64>,
) -> Option<ConfigErrorModel> {
    if tenant_id_problem(tenant_id) is Some {
        Some(ConfigErrorModel::ValidationError(tenant_id_problem(tenant_id)->0))
    } else if !m.contains_key(tenant_id) {
        Some(ConfigErrorModel::NotFound(tenant_id))
    } else if expected matches Some(e) && m[tenant_id].version != e {
        Some(ConfigErrorModel::VersionMismatch(expected->0, m[tenant_id].version))
    } else {
        None
    }
}

/// The failure of a validation, if any.
pub open spec fn validation_problem(c: TenantConfiguration, size: usize) -> Option<ConfigErrorModel> {
    if tenant_id_problem(c.tenant_id@) is Some {
        Some(ConfigErrorModel::ValidationError(tenant_id_problem(c.tenant_id@)->0))
    } else if c.version == 0 {
        Some(ConfigErrorModel::ValidationError("Configuration version must be greater than 0"@))
    } else if configuration_problem(c) is Some {
        Some(ConfigErrorModel::ValidationError(configuration_problem(c)->0))
    } else if size > MAX_CONFIG_SIZE {
        Some(ConfigErrorModel::ValidationError(size_message(size as nat)))
    } else {
        None
    }
}

/// The tenant id an operation of a bulk request is about.
pub open spec fn bulk_tenant(op: BulkConfigurationOperation) -> Seq<char> {
    match op {
        BulkConfigurationOperation::Create(c) => c.tenant_id@,
        BulkConfigurationOperation::Update(c) => c.tenant_id@,
        BulkConfigurationOperation::Delete { tenant_id, .. } => tenant_id@,
        BulkConfigurationOperation::Validate(c) => c.tenant_id@,
    }
}

/// The name of an operation of a bulk request.
pub open spec fn bulk_name(op: BulkConfigurationOperation) -> Seq<char> {
    match op {
        BulkConfigurationOperation::Create(_) => "create"@,
        BulkConfigurationOperation::Update(_) => "update"@,
        BulkConfigurationOperation::Delete { .. } => "delete"@,
        BulkConfigurationOperation::Validate(_) => "validate"@,
    }
}

/// The failure of one bulk operation against stored configurations `m`, if any.
pub open spec fn bulk_problem(
    m: Map<Seq<char>, TenantConfiguration>,
    settings: ProviderSettings,
    op: BulkConfigurationOperation,
    size: usize,
) -> Option<ConfigErrorModel> {
    match op {
        BulkConfigurationOperation::Create(c) => create_problem(m, settings, c, size),
        BulkConfigurationOperation::Update(c) => update_problem(m, c, size),
        BulkConfigurationOperation::Delete { tenant_id, expected_version } => delete_problem(m, tenant_id@, expected_version),
        BulkConfigurationOperation::Validate(c) => validation_problem(c, size),
    }
}

/// The stored configurations after one successful bulk operation.
pub open spec fn bulk_effect(
    m: Map<Seq<char>, TenantConfiguration>,
    op: BulkConfigurationOperation,
    now: i64,
) -> Map<Seq<char>, TenantConfiguration> {
    match op {
        BulkConfigurationOperation::Create(c) => m.insert(c.tenant_id@, created_config(c, now)),
        BulkConfigurationOperation::Update(c) => m.insert(c.tenant_id@, updated_config(c, now)),
        BulkConfigurationOperation::Delete { tenant_id, .. } => m.remove(tenant_id@),
        BulkConfigurationOperation::Validate(_) => m,
    }
}

/// The stored configurations after the first `n` operations of a bulk request.
pub open spec fn bulk_state(
    m: Map<Seq<char>, TenantConfiguration>,
    settings: ProviderSettings,
    ops: Seq<BulkConfigurationOperation>,
    sizes: Seq<usize>,
    now: i64,
    n: nat,
) -> Map<Seq<char>, TenantConfiguration>
    decreases n,
{
    if n == 0 {
        m
    } else {
        let prev = bulk_state(m, settings, ops, sizes, now, (n - 1) as nat);
        if bulk_problem(prev, settings, ops[n - 1], sizes[n - 1]) is Some {
            prev
        } else {
            bulk_effect(prev, ops[n - 1], now)
        }
    }
}

/// Whether every update of a bulk request names a version below the maximum.
pub open spec fn bulk_versions_ok(ops: Seq<BulkConfigurationOperation>) -> bool {
    forall|i: int| 0 <= i < ops.len() ==> (#[trigger] ops[i] matches BulkConfigurationOperation::Update(c) ==> c.version < u64::MAX)
}

/// The text of a configuration error given by its model.
pub open spec fn problem_text(p: ConfigErrorModel) -> Seq<char> {
    match p {
        ConfigErrorModel::ValidationError(m) => "Configuration validation failed: "@ + m,
        ConfigErrorModel::NotFound(t) => "Configuration not found for tenant: "@ + t,
        ConfigErrorModel::Conflict(m) => "Configuration conflict: "@ + m,
        ConfigErrorModel::SerializationError(m) => "Serialization error: "@ + m,
        ConfigErrorModel::VersionMismatch(expected, actual) => "Invalid configuration version: expected "@ + decimal(
            expected as nat,
        ) + ", got "@ + decimal(actual as nat),
    }
}

/// The configuration a successful bulk operation reports at instant `now`.
pub open spec fn bulk_success_config(op: BulkConfigurationOperation, now: i64) -> Option<TenantConfiguration> {
    match op {
        BulkConfigurationOperation::Create(c) => Some(created_config(c, now)),
        BulkConfigurationOperation::Update(c) => Some(updated_config(c, now)),
        BulkConfigurationOperation::Delete { .. } => None,
        BulkConfigurationOperation::Validate(c) => Some(c),
    }
}

/// Whether a bulk result reports the failure `problem`, by its text, or
/// else success with the configuration `expected` (compared by summary).
pub open spec fn bulk_reported(
    r: BulkOperationResult,
    problem: Option<ConfigErrorModel>,
    expected: Option<TenantConfiguration>,
) -> bool {
    match problem {
        Some(p) => r matches BulkOperationResult::Error { error, .. } && error@ == problem_text(p),
        None => r matches BulkOperationResult::Success { configuration, .. } && match (configuration, expected) {
            (Some(a), Some(b)) => a.summary() == b.summary(),
            (None, None) => true,
            _ => false,
        },
    }
}

proof fn lemma_problem_text(e: ConfigurationError)
    ensures
        error_text(e) == problem_text(e@),
{
}

/// Whether a bulk result reports the given operation's tenant and name.
pub open spec fn bulk_result_about(r: BulkOperationResult, op: BulkConfigurationOperation) -> bool {
    match r {
        BulkOperationResult::Success { tenant_id, operation, .. } => tenant_id@ == bulk_tenant(op) && operation@ == bulk_name(op),
        BulkOperationResult::Error { tenant_id, operation, .. } => tenant_id@ == bulk_tenant(op) && operation@ == bulk_name(op),
    }
}

impl InMemoryConfigurationProvider {
    #[verifier::type_invariant]
    spec fn keyed_by_tenant(self) -> bool {
        forall|k: Seq<char>| #[trigger] self.configurations@.contains_key(k) ==> self.configurations@[k].tenant_id@ == k
    }

    /// The stored configurations by tenant id.
    pub closed spec fn configs(&self) -> Map<Seq<char>, TenantConfiguration> {
        self.configurations@
    }

    /// The settings.
    pub closed spec fn settings_view(&self) -> ProviderSettings {
        self.settings
    }

    /// The lookup counters: hits, misses and evictions.
    pub closed spec fn counters(&self) -> (u64, u64, u64) {
        (self.cache_hits, self.cache_misses, self.evictions)
    }

    /// The stored configurations in storage order.
    pub closed spec fn stored_seq(&self) -> Seq<TenantConfiguration> {
        Seq::new(self.configurations.key_seq().len(), |i: int| self.configurations@[self.configurations.key_seq()[i]])
    }

    /// A provider with default settings.
    pub fn new() -> (r: InMemoryConfigurationProvider)
        ensures
            r.configs() == Map::<Seq<char>, TenantConfiguration>::empty(),
            r.counters() == (0u64, 0u64, 0u64),
            r.settings_view().max_configurations == Some(10000usize),
    {
        Self::with_settings(ProviderSettings::default())
    }

    /// A provider with the given settings.
    pub fn with_settings(settings: ProviderSettings) -> (r: InMemoryConfigurationProvider)
        ensures
            r.configs() == Map::<Seq<char>, TenantConfiguration>::empty(),
            r.counters() == (0u64, 0u64, 0u64),
            r.settings_view() == settings,
    {
        InMemoryConfigurationProvider { configurations: StrMap::new(), settings, cache_hits: 0, cache_misses: 0, evictions: 0 }
    }

    /// A provider whose settings enable persistence to `file_path`.
    pub fn with_persistence(file_path: String) -> (r: InMemoryConfigurationProvider)
        ensures
            r.configs() == Map::<Seq<char>, TenantConfiguration>::empty(),
            r.counters() == (0u64, 0u64, 0u64),
            r.settings_view().enable_persistence,
            r.settings_view().persistence_file == Some(file_path),
            r.settings_view().max_configurations == Some(10000usize),
    {
        let mut settings = ProviderSettings::default();
        settings.enable_persistence = true;
        settings.persistence_file = Some(file_path);
        Self::with_settings(settings)
    }

    /// The settings.
    pub fn settings(&self) -> (r: &ProviderSettings)
        ensures
            *r == self.settings_view(),
    {
        &self.settings
    }

    /// The number of stored configurations.
    pub fn size(&self) -> (r: usize)
        ensures
            r == self.configs().len(),
    {
        self.configurations.len()
    }

    /// Removes every configuration, returning how many there were.
    pub fn clear(&mut self) -> (r: usize)
        ensures
            r == old(self).configs().len(),
            final(self).configs() == Map::<Seq<char>, TenantConfiguration>::empty(),
            final(self).settings_view() == old(self).settings_view(),
            final(self).counters() == old(self).counters(),
    {
        let n = self.configurations.len();
        let mut m = StrMap::new();
        std::mem::swap(&mut m, &mut self.configurations);
        n
    }

    /// Stores a new configuration at instant `now`, with version 1.
    /// `serialized_size` is the size of the configuration serialised as JSON.
    pub fn create_configuration_at(
        &mut self,
        configuration: TenantConfiguration,
        serialized_size: usize,
        now: i64,
    ) -> (r: Result<TenantConfiguration, ConfigurationError>)
        ensures
            final(self).settings_view() == old(self).settings_view(),
            final(self).counters() == old(self).counters(),
            match create_problem(old(self).configs(), old(self).settings_view(), configuration, serialized_size) {
                Some(e) => r matches Err(err) && err@ == e && final(self).configs() == old(self).configs(),
                None => r matches Ok(c) && c.summary() == created_config(configuration, now).summary()
                    && final(self).configs() == old(self).configs().insert(
                    configuration.tenant_id@,
                    created_config(configuration, now),
                ),
            },
    {
        proof {
            use_type_invariant(&*self);
        }
        match self.validate_tenant_id(configuration.tenant_id.as_str()) {
            Ok(()) => {},
            Err(e) => {
                return Err(e);
            },
        }
        match configuration.validate() {
            Ok(()) => {},
            Err(e) => {
                return Err(e);
            },
        }
        match self.validate_configuration_size(serialized_size) {
            Ok(()) => {},
            Err(e) => {
                return Err(e);
            },
        }
        match self.settings.max_configurations {
            Some(max) => {
                if self.configurations.len() >= max {
                    let a = concat("Maximum configuration limit (", decimal_string(max as u64).as_str());
                    return Err(ConfigurationError::ValidationError { message: concat(a.as_str(), ") reached") });
                }
            },
            None => {},
        }
        if self.configurations.contains_key(configuration.tenant_id.as_str()) {
            return Err(ConfigurationError::Conflict {
                message: concat("Configuration already exists for tenant: ", configuration.tenant_id.as_str()),
            });
        }
        let mut configuration = configuration;
        configuration.created_at = now;
        configuration.last_modified = now;
        configuration.version = 1;
        let returned = configuration.copy();
        let key = configuration.tenant_id.clone();
        let mut m = StrMap::new();
        std::mem::swap(&mut m, &mut self.configurations);
        m.insert(key, configuration);
        self.configurations = m;
        Ok(returned)
    }

    /// Stores a new configuration now, with version 1.
    pub fn create_configuration(&mut self, configuration: TenantConfiguration, serialized_size: usize) -> (r: Result<TenantConfiguration, ConfigurationError>)
        ensures
            final(self).settings_view() == old(self).settings_view(),
            final(self).counters() == old(self).counters(),
            match create_problem(old(self).configs(), old(self).settings_view(), configuration, serialized_size) {
                Some(e) => r matches Err(err) && err@ == e && final(self).configs() == old(self).configs(),
                None => exists|now: i64| r matches Ok(c) && c.summary() == #[trigger] created_config(configuration, now).summary()
                    && final(self).configs() == old(self).configs().insert(
                    configuration.tenant_id@,
                    created_config(configuration, now),
                ),
            },
    {
        let now = now_micros();
        self.create_configuration_at(configuration, serialized_size, now)
    }

    /// The configuration of a tenant. A lookup that finds one counts as a
    /// hit, one that finds none as a miss (counts stop at the largest `u64`);
    /// a refused tenant id counts as neither.
    pub fn get_configuration(&mut self, tenant_id: &str) -> (r: Result<Option<TenantConfiguration>, ConfigurationError>)
        ensures
            final(self).configs() == old(self).configs(),
            final(self).settings_view() == old(self).settings_view(),
            match tenant_id_problem(tenant_id@) {
                Some(m) => r matches Err(e) && e@ == ConfigErrorModel::ValidationError(m) && final(self).counters()
                    == old(self).counters(),
                None => r matches Ok(o) && match o {
                    Some(c) => old(self).configs().contains_key(tenant_id@) && c.summary() == old(self).configs()[tenant_id@].summary()
                        && final(self).counters() == (
                        saturated_u64(old(self).counters().0 + 1),
                        old(self).counters().1,
                        old(self).counters().2,
                    ),
                    None => !old(self).configs().contains_key(tenant_id@) && final(self).counters() == (
                        old(self).counters().0,
                        saturated_u64(old(self).counters().1 + 1),
                        old(self).counters().2,
                    ),
                },
            },
    {
        proof {
            use_type_invariant(&*self);
        }
        match self.validate_tenant_id(tenant_id) {
            Ok(()) => {},
            Err(e) => {
                return Err(e);
            },
        }
        let found = match self.configurations.get(tenant_id) {
            Some(c) => Some(c.copy()),
            None => None,
        };
        if found.is_some() {
            self.cache_hits = self.cache_hits.saturating_add(1);
        } else {
            self.cache_misses = self.cache_misses.saturating_add(1);
        }
        Ok(found)
    }

    /// The lookup counters: hits, misses and evictions.
    pub fn cache_counters(&self) -> (r: (u64, u64, u64))
        ensures
            r == self.counters(),
    {
        (self.cache_hits, self.cache_misses, self.evictions)
    }

    /// Removes every configuration and resets the hit and miss counts; the
    /// removed configurations count as evictions (stopping at the largest `u64`).
    pub fn clear_all_cache(&mut self) -> (r: Result<(), ConfigurationError>)
        ensures
            r is Ok,
            final(self).configs() == Map::<Seq<char>, TenantConfiguration>::empty(),
            final(self).settings_view() == old(self).settings_view(),
            final(self).counters() == (0u64, 0u64, saturated_u64(old(self).counters().2 + old(self).configs().len())),
    {
        let cleared = self.clear();
        proof {
            use_type_invariant(&*self);
        }
        self.cache_hits = 0;
        self.cache_misses = 0;
        self.evictions = self.evictions.saturating_add(cleared as u64);
        Ok(())
    }

    /// Replaces a tenant's configuration at instant `now`. The configuration
    /// must carry the stored version; the stored result has the next version.
    pub fn update_configuration_at(
        &mut self,
        configuration: TenantConfiguration,
        serialized_size: usize,
        now: i64,
    ) -> (r: Result<TenantConfiguration, ConfigurationError>)
        requires
            configuration.version < u64::MAX,
        ensures
            final(self).settings_view() == old(self).settings_view(),
            final(self).counters() == old(self).counters(),
            match update_problem(old(self).configs(), configuration, serialized_size) {
                Some(e) => r matches Err(err) && err@ == e && final(self).configs() == old(self).configs(),
                None => r matches Ok(c) && c.summary() == updated_config(configuration, now).summary()
                    && final(self).configs() == old(self).configs().insert(
                    configuration.tenant_id@,
                    updated_config(configuration, now),
                ),
            },
    {
        proof {
            use_type_invariant(&*self);
        }
        match self.validate_tenant_id(configuration.tenant_id.as_str()) {
            Ok(()) => {},
            Err(e) => {
                return Err(e);
            },
        }
        match configuration.validate() {
            Ok(()) => {},
            Err(e) => {
                return Err(e);
            },
        }
        match self.validate_configuration_size(serialized_size) {
            Ok(()) => {},
            Err(e) => {
                return Err(e);
            },
        }
        let existing_version = match self.configurations.get(configuration.tenant_id.as_str()) {
            Some(existing) => existing.version,
            None => {
                return Err(ConfigurationError::NotFound { tenant_id: configuration.tenant_id.clone() });
            },
        };
        if configuration.version != existing_version {
            return Err(ConfigurationError::VersionMismatch { expected: existing_version, actual: configuration.version });
        }
        let mut configuration = configuration;
        configuration.last_modified = now;
        configuration.version = configuration.version + 1;
        let returned = configuration.copy();
        let key = configuration.tenant_id.clone();
        let mut m = StrMap::new();
        std::mem::swap(&mut m, &mut self.configurations);
        m.insert(key, configuration);
        self.configurations = m;
        Ok(returned)
    }

    /// Replaces a tenant's configuration now.
    pub fn update_configuration(&mut self, configuration: TenantConfiguration, serialized_size: usize) -> (r: Result<TenantConfiguration, ConfigurationError>)
        requires
            configuration.version < u64::MAX,
        ensures
            final(self).settings_view() == old(self).settings_view(),
            final(self).counters() == old(self).counters(),
            match update_problem(old(self).configs(), configuration, serialized_size) {
                Some(e) => r matches Err(err) && err@ == e && final(self).configs() == old(self).configs(),
                None => exists|now: i64| r matches Ok(c) && c.summary() == #[trigger] updated_config(configuration, now).summary()
                    && final(self).configs() == old(self).configs().insert(
                    configuration.tenant_id@,
                    updated_config(configuration, now),
                ),
            },
    {
        let now = now_micros();
        self.update_configuration_at(configuration, serialized_size, now)
    }

    /// Deletes a tenant's configuration; with `expected_version`, only if
    /// it is the stored version.
    pub fn delete_configuration(&mut self, tenant_id: &str, expected_version: Option<u64>) -> (r: Result<(), ConfigurationError>)
        ensures
            final(self).settings_view() == old(self).settings_view(),
            final(self).counters() == old(self).counters(),
            match delete_problem(old(self).configs(), tenant_id@, expected_version) {
                Some(e) => r matches Err(err) && err@ == e && final(self).configs() == old(self).configs(),
                None => r is Ok && final(self).configs() == old(self).configs().remove(tenant_id@),
            },
    {
        proof {
            use_type_invariant(&*self);
        }
        match self.validate_tenant_id(tenant_id) {
            Ok(()) => {},
            Err(e) => {
                return Err(e);
            },
        }
        let existing_version = match self.configurations.get(tenant_id) {
            Some(existing) => existing.version,
            None => {
                return Err(ConfigurationError::NotFound { tenant_id: tenant_id.to_string() });
            },
        };
        match expected_version {
            Some(expected) => {
                if existing_version != expected {
                    return Err(ConfigurationError::VersionMismatch { expected, actual: existing_version });
                }
            },
            None => {},
        }
        let mut m = StrMap::new();
        std::mem::swap(&mut m, &mut self.configurations);
        let _ = m.remove(tenant_id);
        self.configurations = m;
        Ok(())
    }

    /// Whether a tenant has a configuration.
    pub fn configuration_exists(&self, tenant_id: &str) -> (r: Result<bool, ConfigurationError>)
        ensures
            match tenant_id_problem(tenant_id@) {
                Some(m) => r matches Err(e) && e@ == ConfigErrorModel::ValidationError(m),
                None => r == Ok::<bool, ConfigurationError>(self.configs().contains_key(tenant_id@)),
            },
    {
        match self.validate_tenant_id(tenant_id) {
            Ok(()) => {},
            Err(e) => {
                return Err(e);
            },
        }
        Ok(self.configurations.contains_key(tenant_id))
    }

    /// The number of stored configurations.
    pub fn count_configurations(&self) -> (r: Result<usize, ConfigurationError>)
        ensures
            r == Ok::<usize, ConfigurationError>(self.configs().len() as usize),
    {
        Ok(self.configurations.len())
    }

    /// Checks a configuration: tenant id, version, limits and size.
    pub fn validate_configuration(
        &self,
        configuration: &TenantConfiguration,
        context: &ValidationContext,
        serialized_size: usize,
    ) -> (r: Result<(), ConfigurationError>)
        ensures
            match validation_problem(*configuration, serialized_size) {
                Some(e) => r matches Err(err) && err@ == e,
                None => r is Ok,
            },
    {
        match self.validate_tenant_id(configuration.tenant_id.as_str()) {
            Ok(()) => {},
            Err(e) => {
                return Err(e);
            },
        }
        match self.validate_version(configuration.version) {
            Ok(()) => {},
            Err(e) => {
                return Err(e);
            },
        }
        match configuration.validate() {
            Ok(()) => {},
            Err(e) => {
                return Err(e);
            },
        }
        self.validate_configuration_size(serialized_size)
    }

    /// The stored configurations matching the query's filters, in storage order.
    pub fn filter_configurations(&self, query: &ConfigurationQuery) -> (r: Vec<&TenantConfiguration>)
        ensures
            derefs(r@) == self.stored_seq().filter(|c: TenantConfiguration| config_matches(c, *query)),
    {
        let keys = self.configurations.keys();
        let ghost all = self.stored_seq();
        let ghost pred = |c: TenantConfiguration| config_matches(c, *query);
        let mut out: Vec<&TenantConfiguration> = Vec::new();
        let mut i: usize = 0;
        assert(all.take(0).filter(pred) =~= Seq::<TenantConfiguration>::empty());
        assert(derefs(out@) =~= Seq::<TenantConfiguration>::empty());
        while i < keys.len()
            invariant
                all == self.stored_seq(),
                pred == (|c: TenantConfiguration| config_matches(c, *query)),
                keys@.len() == self.configurations.key_seq().len(),
                all.len() == keys@.len(),
                i <= keys@.len(),
                derefs(out@) == all.take(i as int).filter(pred),
            decreases keys@.len() - i,
        {
            let c = self.configurations.value_at(i);
            assert(*c == all[i as int]);
            assert(all.take(i + 1) =~= all.take(i as int).push(all[i as int]));
            proof {
                all.take(i as int).lemma_filter_push(all[i as int], pred);
            }
            let ghost before = derefs(out@);
            if query_matches(c, query) {
                out.push(c);
                assert(derefs(out@) =~= before.push(*c));
            }
            i = i + 1;
        }
        assert(all.take(keys@.len() as int) =~= all);
        out
    }

    /// The stored configurations that match the query's filters, each once,
    /// sorted stably by the query's order.
    pub fn filter_and_sort_configurations(&self, query: &ConfigurationQuery) -> (r: Vec<&TenantConfiguration>)
        ensures
            derefs(r@).to_multiset() == self.stored_seq().filter(|c: TenantConfiguration| config_matches(c, *query)).to_multiset(),
            sorted_configs(derefs(r@), query.sort_order),
    {
        let filtered = self.filter_configurations(query);
        sort_configurations(filtered, query.sort_order)
    }

    /// Whether `res` is the page that a listing with `query` gives: the
    /// matching configurations, sorted stably by the query's order, from its
    /// offset, at most its limit of them.
    pub open spec fn lists(&self, query: ConfigurationQuery, res: ConfigurationQueryResult) -> bool {
        let matching = self.stored_seq().filter(|c: TenantConfiguration| config_matches(c, query));
        let offset: nat = match query.offset {
            Some(o) => o as nat,
            None => 0,
        };
        let limit: nat = match query.limit {
            Some(l) => l as nat,
            None => matching.len(),
        };
        res.total_count == matching.len() && exists|sorted: Seq<TenantConfiguration>|
            {
                &&& #[trigger] sorted.to_multiset() == matching.to_multiset()
                &&& sorted_configs(sorted, query.sort_order)
                &&& summaries(res.configurations@) == summaries(page_of(sorted, offset, limit))
                &&& res.has_more == (offset + page_of(sorted, offset, limit).len() < matching.len())
                &&& res.next_offset == if res.has_more {
                    Some((offset + page_of(sorted, offset, limit).len()) as usize)
                } else {
                    None
                }
            }
    }

        /// A listing page is ordered as the query asks: by modification or
    /// creation time, ascending (non-decreasing) or descending
    /// (non-increasing), and by tenant id or display name, ascending (no
    /// later entry smaller) or descending (no later entry larger).
    pub proof fn law_list_order(&self, query: ConfigurationQuery, res: ConfigurationQueryResult)
        requires
            self.lists(query, res),
        ensures
            forall|i: int, j: int|
                0 <= i < j < res.configurations@.len() ==> {
                    let a = #[trigger] res.configurations@[i];
                    let b = #[trigger] res.configurations@[j];
                    &&& query.sort_order == SortOrder::LastModifiedAsc ==> a.last_modified <= b.last_modified
                    &&& query.sort_order == SortOrder::LastModifiedDesc ==> a.last_modified >= b.last_modified
                    &&& query.sort_order == SortOrder::CreatedAsc ==> a.created_at <= b.created_at
                    &&& query.sort_order == SortOrder::CreatedDesc ==> a.created_at >= b.created_at
                    &&& query.sort_order == SortOrder::TenantIdAsc ==> !str_less(b.tenant_id@, a.tenant_id@)
                    &&& query.sort_order == SortOrder::TenantIdDesc ==> !str_less(a.tenant_id@, b.tenant_id@)
                    &&& query.sort_order == SortOrder::DisplayNameAsc ==> !str_less(b.display_name@, a.display_name@)
                    &&& query.sort_order == SortOrder::DisplayNameDesc ==> !str_less(a.display_name@, b.display_name@)
                },
    {
        let matching = self.stored_seq().filter(|c: TenantConfiguration| config_matches(c, query));
        let offset: nat = match query.offset {
            Some(o) => o as nat,
            None => 0,
        };
        let limit: nat = match query.limit {
            Some(l) => l as nat,
            None => matching.len(),
        };
        let sorted = choose|sorted: Seq<TenantConfiguration>|
            {
                &&& #[trigger] sorted.to_multiset() == matching.to_multiset()
                &&& sorted_configs(sorted, query.sort_order)
                &&& summaries(res.configurations@) == summaries(page_of(sorted, offset, limit))
                &&& res.has_more == (offset + page_of(sorted, offset, limit).len() < matching.len())
                &&& res.next_offset == if res.has_more {
                    Some((offset + page_of(sorted, offset, limit).len()) as usize)
                } else {
                    None
                }
            };
        let page = page_of(sorted, offset, limit);
        assert(summaries(res.configurations@).len() == summaries(page).len());
        assert forall|i: int, j: int| 0 <= i < j < res.configurations@.len() implies {
            let a = #[trigger] res.configurations@[i];
            let b = #[trigger] res.configurations@[j];
            &&& query.sort_order == SortOrder::LastModifiedAsc ==> a.last_modified <= b.last_modified
            &&& query.sort_order == SortOrder::LastModifiedDesc ==> a.last_modified >= b.last_modified
            &&& query.sort_order == SortOrder::CreatedAsc ==> a.created_at <= b.created_at
            &&& query.sort_order == SortOrder::CreatedDesc ==> a.created_at >= b.created_at
            &&& query.sort_order == SortOrder::TenantIdAsc ==> !str_less(b.tenant_id@, a.tenant_id@)
            &&& query.sort_order == SortOrder::TenantIdDesc ==> !str_less(a.tenant_id@, b.tenant_id@)
            &&& query.sort_order == SortOrder::DisplayNameAsc ==> !str_less(b.display_name@, a.display_name@)
            &&& query.sort_order == SortOrder::DisplayNameDesc ==> !str_less(a.display_name@, b.display_name@)
        } by {
            assert(summaries(res.configurations@)[i] == summaries(page)[i]);
            assert(summaries(res.configurations@)[j] == summaries(page)[j]);
            assert(page[i] == sorted[offset + i]);
            assert(page[j] == sorted[offset + j]);
            assert(!config_before(sorted[offset + j], sorted[offset + i], query.sort_order));
        }
    }

/// Every stored configuration, ordered by tenant id: the listing with
    /// the default query.
    pub fn get_all_configurations(&self) -> (r: Result<Vec<TenantConfiguration>, ConfigurationError>)
        ensures
            r matches Ok(v) && exists|res: ConfigurationQueryResult|
                #[trigger] self.lists(default_query(), res) && v == res.configurations,
    {
        let query = ConfigurationQuery::default();
        assert(query == default_query());
        match self.list_configurations(&query) {
            Ok(res) => Ok(res.configurations),
            Err(e) => Err(e),
        }
    }

    /// The configurations matching the query, sorted stably by its order and
    /// paginated by its offset and limit.
    pub fn list_configurations(&self, query: &ConfigurationQuery) -> (r: Result<ConfigurationQueryResult, ConfigurationError>)
        ensures
            r matches Ok(res) && self.lists(*query, res),
    {
        let ghost matching = self.stored_seq().filter(|c: TenantConfiguration| config_matches(c, *query));
        let sorted = self.filter_and_sort_configurations(query);
        let ghost s = derefs(sorted@);
        proof {
            vstd::seq_lib::to_multiset_len(s);
            vstd::seq_lib::to_multiset_len(matching);
        }
        let n = sorted.len();
        let offset = match query.offset {
            Some(o) => o,
            None => 0,
        };
        let limit = match query.limit {
            Some(l) => l,
            None => n,
        };
        let start = if offset >= n { n } else { offset };
        let end = if offset >= n { n } else if limit < n - offset { offset + limit } else { n };
        let mut page: Vec<TenantConfiguration> = Vec::new();
        let mut i: usize = start;
        while i < end
            invariant
                start <= i <= end <= n,
                n == sorted@.len(),
                s == derefs(sorted@),
                page@.len() == i - start,
                forall|k: int| 0 <= k < page@.len() ==> (#[trigger] page@[k]).summary() == s[start + k].summary(),
            decreases end - i,
        {
            page.push(sorted[i].copy());
            i = i + 1;
        }
        let total = n;
        let count = page.len();
        let has_more = if offset >= n { false } else { offset + count < total };
        let next_offset = if has_more { Some(offset + count) } else { None };
        proof {
            let lim: nat = limit as nat;
            assert(summaries(page@) =~= summaries(page_of(s, offset as nat, lim)));
        }
        Ok(ConfigurationQueryResult { configurations: page, total_count: total, has_more, next_offset })
    }

    /// Runs each operation in turn now; see `bulk_operations_at`.
    pub fn bulk_operations(&mut self, operations: Vec<BulkConfigurationOperation>, sizes: &Vec<usize>) -> (r: Result<
        Vec<BulkOperationResult>,
        ConfigurationError,
    >)
        requires
            sizes@.len() == operations@.len(),
            bulk_versions_ok(operations@),
        ensures
            final(self).settings_view() == old(self).settings_view(),
            final(self).counters() == old(self).counters(),
            exists|now: i64|
                #[trigger] bulk_state(old(self).configs(), old(self).settings_view(), operations@, sizes@, now, operations@.len())
                    == final(self).configs() && (r matches Ok(results) && results@.len() == operations@.len() && forall|i: int|
                    0 <= i < results@.len() ==> {
                        let prev = bulk_state(old(self).configs(), old(self).settings_view(), operations@, sizes@, now, i as nat);
                        &&& bulk_result_about(#[trigger] results@[i], operations@[i])
                        &&& bulk_reported(
                            results@[i],
                            bulk_problem(prev, old(self).settings_view(), operations@[i], sizes@[i]),
                            bulk_success_config(operations@[i], now),
                        )
                    }),
    {
        let now = now_micros();
        self.bulk_operations_at(operations, sizes, now)
    }

    /// Runs each operation in turn at instant `now`, collecting a result for
    /// each; a failed operation changes nothing and is reported as an error.
    /// `sizes[i]` is the serialised size of the configuration of operation `i`.
    pub fn bulk_operations_at(
        &mut self,
        operations: Vec<BulkConfigurationOperation>,
        sizes: &Vec<usize>,
        now: i64,
    ) -> (r: Result<Vec<BulkOperationResult>, ConfigurationError>)
        requires
            sizes@.len() == operations@.len(),
            bulk_versions_ok(operations@),
        ensures
            final(self).settings_view() == old(self).settings_view(),
            final(self).counters() == old(self).counters(),
            final(self).configs() == bulk_state(old(self).configs(), old(self).settings_view(), operations@, sizes@, now, operations@.len()),
            r matches Ok(results) && results@.len() == operations@.len() && forall|i: int|
                0 <= i < results@.len() ==> {
                    let prev = bulk_state(old(self).configs(), old(self).settings_view(), operations@, sizes@, now, i as nat);
                    &&& bulk_result_about(#[trigger] results@[i], operations@[i])
                    &&& bulk_reported(results@[i], bulk_problem(prev, old(self).settings_view(), operations@[i], sizes@[i]), bulk_success_config(operations@[i], now))
                },
    {
        let ghost m0 = self.configs();
        let ghost settings = self.settings_view();
        let ghost counters0 = self.counters();
        let ghost ops = operations@;
        let mut results: Vec<BulkOperationResult> = Vec::new();
        let mut i: usize = 0;
        let mut rest = operations;
        let n = rest.len();
        while i < n
            invariant
                n == ops.len(),
                sizes@.len() == n,
                bulk_versions_ok(ops),
                i <= n,
                rest@ == ops.skip(i as int),
                self.settings_view() == settings,
                self.counters() == counters0,
                self.configs() == bulk_state(m0, settings, ops, sizes@, now, i as nat),
                results@.len() == i,
                forall|k: int|
                    0 <= k < i ==> {
                        let prev = bulk_state(m0, settings, ops, sizes@, now, k as nat);
                        &&& bulk_result_about(#[trigger] results@[k], ops[k])
                        &&& bulk_reported(results@[k], bulk_problem(prev, settings, ops[k], sizes@[k]), bulk_success_config(ops[k], now))
                    },
            decreases n - i,
        {
            let op = rest.remove(0);
            assert(op == ops[i as int]);
            assert(rest@ =~= ops.skip(i + 1));
            let size = sizes[i];
            let result = match op {
                BulkConfigurationOperation::Create(config) => {
                    let tid = config.tenant_id.clone();
                    match self.create_configuration_at(config, size, now) {
                        Ok(created) => BulkOperationResult::Success {
                            tenant_id: created.tenant_id.clone(),
                            operation: "create".to_string(),
                            configuration: Some(created),
                        },
                        Err(e) => {
                            proof {
                                lemma_problem_text(e);
                            }
                            BulkOperationResult::Error { tenant_id: tid, operation: "create".to_string(), error: e.message() }
                        },
                    }
                },
                BulkConfigurationOperation::Update(config) => {
                    assert(ops[i as int] matches BulkConfigurationOperation::Update(c) ==> c.version < u64::MAX);
                    let tid = config.tenant_id.clone();
                    match self.update_configuration_at(config, size, now) {
                        Ok(updated) => BulkOperationResult::Success {
                            tenant_id: updated.tenant_id.clone(),
                            operation: "update".to_string(),
                            configuration: Some(updated),
                        },
                        Err(e) => {
                            proof {
                                lemma_problem_text(e);
                            }
                            BulkOperationResult::Error { tenant_id: tid, operation: "update".to_string(), error: e.message() }
                        },
                    }
                },
                BulkConfigurationOperation::Delete { tenant_id, expected_version } => {
                    match self.delete_configuration(tenant_id.as_str(), expected_version) {
                        Ok(()) => BulkOperationResult::Success {
                            tenant_id,
                            operation: "delete".to_string(),
                            configuration: None,
                        },
                        Err(e) => {
                            proof {
                                lemma_problem_text(e);
                            }
                            BulkOperationResult::Error { tenant_id, operation: "delete".to_string(), error: e.message() }
                        },
                    }
                },
                BulkConfigurationOperation::Validate(config) => {
                    let ctx = ValidationContext { is_create: true, previous_configuration: None, validation_params: StrMap::new() };
                    match self.validate_configuration(&config, &ctx, size) {
                        Ok(()) => BulkOperationResult::Success {
                            tenant_id: config.tenant_id.clone(),
                            operation: "validate".to_string(),
                            configuration: Some(config),
                        },
                        Err(e) => {
                            proof {
                                lemma_problem_text(e);
                            }
                            BulkOperationResult::Error { tenant_id: config.tenant_id, operation: "validate".to_string(), error: e.message() }
                        },
                    }
                },
            };
            results.push(result);
            i = i + 1;
        }
        Ok(results)
    }
}

impl ConfigurationValidator for InMemoryConfigurationProvider {}

/// A successful update stores the next version: one more than the stored one.
pub proof fn law_config_update_increments_version(
    m: Map<Seq<char>, TenantConfiguration>,
    c: TenantConfiguration,
    size: usize,
    now: i64,
)
    requires
        update_problem(m, c, size) is None,
        c.version < u64::MAX,
    ensures
        m.insert(c.tenant_id@, updated_config(c, now))[c.tenant_id@].version == m[c.tenant_id@].version + 1,
{
}

/// An update naming a version other than the stored one is refused with a
/// version mismatch (once the configuration itself is valid).
pub proof fn law_config_stale_update_refused(
    m: Map<Seq<char>, TenantConfiguration>,
    c: TenantConfiguration,
    size: usize,
)
    requires
        tenant_id_problem(c.tenant_id@) is None,
        configuration_problem(c) is None,
        size <= MAX_CONFIG_SIZE,
        m.contains_key(c.tenant_id@),
        m[c.tenant_id@].version != c.version,
    ensures
        update_problem(m, c, size) == Some(ConfigErrorModel::VersionMismatch(m[c.tenant_id@].version, c.version)),
{
}

/// Once a tenant's configuration is created, creating another one for the
/// same tenant conflicts (when the limit on configurations is not reached).
pub proof fn law_config_create_twice_conflicts(
    m: Map<Seq<char>, TenantConfiguration>,
    settings: ProviderSettings,
    c: TenantConfiguration,
    size: usize,
    now: i64,
    c2: TenantConfiguration,
    size2: usize,
)
    requires
        create_problem(m, settings, c, size) is None,
        c2.tenant_id@ == c.tenant_id@,
        configuration_problem(c2) is None,
        size2 <= MAX_CONFIG_SIZE,
        !(settings.max_configurations matches Some(max) && m.insert(c.tenant_id@, created_config(c, now)).len() >= max),
    ensures
        create_problem(m.insert(c.tenant_id@, created_config(c, now)), settings, c2, size2)
            == Some(ConfigErrorModel::Conflict("Configuration already exists for tenant: "@ + c2.tenant_id@)),
{
}

/// A created configuration is found again with version 1 and the creation instant.
pub proof fn law_config_get_after_create(
    m: Map<Seq<char>, TenantConfiguration>,
    settings: ProviderSettings,
    c: TenantConfiguration,
    size: usize,
    now: i64,
)
    requires
        create_problem(m, settings, c, size) is None,
    ensures
        m.insert(c.tenant_id@, created_config(c, now)).contains_key(c.tenant_id@),
        m.insert(c.tenant_id@, created_config(c, now))[c.tenant_id@].version == 1,
        m.insert(c.tenant_id@, created_config(c, now))[c.tenant_id@].created_at == now,
        m.insert(c.tenant_id@, created_config(c, now))[c.tenant_id@].tenant_id == c.tenant_id,
{
}

/// A deleted configuration is gone.
pub proof fn law_config_gone_after_delete(
    m: Map<Seq<char>, TenantConfiguration>,
    tenant_id: Seq<char>,
    expected: Option<u64>,
)
    requires
        delete_problem(m, tenant_id, expected) is None,
    ensures
        !m.remove(tenant_id).contains_key(tenant_id),
{
}


/// Whether a configuration is among those named, when names are given.
pub open spec fn selected(c: TenantConfiguration, tenant_ids: Option<&Vec<String>>) -> bool {
    match tenant_ids {
        Some(ids) => strings_contain(ids@, c.tenant_id@),
        None => true,
    }
}

/// The stored configurations after restoring the first `n` of `configs`:
/// each replaces the stored one of its tenant, unless that tenant already
/// has one and existing configurations are kept.
pub open spec fn restored_state(
    m: Map<Seq<char>, TenantConfiguration>,
    configs: Seq<TenantConfiguration>,
    overwrite_existing: bool,
    n: nat,
) -> Map<Seq<char>, TenantConfiguration>
    decreases n,
{
    if n == 0 {
        m
    } else {
        let prev = restored_state(m, configs, overwrite_existing, (n - 1) as nat);
        let c = configs[n - 1];
        if !overwrite_existing && prev.contains_key(c.tenant_id@) {
            prev
        } else {
            prev.insert(c.tenant_id@, c)
        }
    }
}

/// How many of the first `n` of `configs` a restore stores.
pub open spec fn restored_count(
    m: Map<Seq<char>, TenantConfiguration>,
    configs: Seq<TenantConfiguration>,
    overwrite_existing: bool,
    n: nat,
) -> nat
    decreases n,
{
    if n == 0 {
        0
    } else {
        let prev = restored_state(m, configs, overwrite_existing, (n - 1) as nat);
        let c = configs[n - 1];
        restored_count(m, configs, overwrite_existing, (n - 1) as nat) + if !overwrite_existing && prev.contains_key(
            c.tenant_id@,
        ) {
            0nat
        } else {
            1nat
        }
    }
}

proof fn lemma_restored_count_bound(
    m: Map<Seq<char>, TenantConfiguration>,
    configs: Seq<TenantConfiguration>,
    overwrite_existing: bool,
    n: nat,
)
    ensures
        restored_count(m, configs, overwrite_existing, n) <= n,
    decreases n,
{
    if n > 0 {
        lemma_restored_count_bound(m, configs, overwrite_existing, (n - 1) as nat);
    }
}

impl InMemoryConfigurationProvider {
    /// The stored configurations among those named (all when none are
    /// named), in storage order: what a backup writes out.
    pub fn backup_selection(&self, tenant_ids: Option<&Vec<String>>) -> (r: Vec<&TenantConfiguration>)
        ensures
            derefs(r@) == self.stored_seq().filter(|c: TenantConfiguration| selected(c, tenant_ids)),
    {
        let keys = self.configurations.keys();
        let ghost all = self.stored_seq();
        let ghost pred = |c: TenantConfiguration| selected(c, tenant_ids);
        let mut out: Vec<&TenantConfiguration> = Vec::new();
        let mut i: usize = 0;
        assert(all.take(0).filter(pred) =~= Seq::<TenantConfiguration>::empty());
        assert(derefs(out@) =~= Seq::<TenantConfiguration>::empty());
        while i < keys.len()
            invariant
                all == self.stored_seq(),
                pred == (|c: TenantConfiguration| selected(c, tenant_ids)),
                keys@.len() == self.configurations.key_seq().len(),
                all.len() == keys@.len(),
                i <= keys@.len(),
                derefs(out@) == all.take(i as int).filter(pred),
            decreases keys@.len() - i,
        {
            let c = self.configurations.value_at(i);
            assert(*c == all[i as int]);
            assert(all.take(i + 1) =~= all.take(i as int).push(all[i as int]));
            proof {
                all.take(i as int).lemma_filter_push(all[i as int], pred);
            }
            let ghost before = derefs(out@);
            let keep = match tenant_ids {
                Some(ids) => vec_contains(ids, c.tenant_id.as_str()),
                None => true,
            };
            if keep {
                out.push(c);
                assert(derefs(out@) =~= before.push(*c));
            }
            i = i + 1;
        }
        assert(all.take(keys@.len() as int) =~= all);
        out
    }

    /// How many of the named tenants (all when none are named) have a
    /// configuration: every stored configuration is already at hand.
    pub fn warm_cache(&self, tenant_ids: Option<&Vec<String>>) -> (r: Result<usize, ConfigurationError>)
        ensures
            r == Ok::<usize, ConfigurationError>(
                self.stored_seq().filter(|c: TenantConfiguration| selected(c, tenant_ids)).len() as usize,
            ),
    {
        let chosen = self.backup_selection(tenant_ids);
        proof {
            assert(chosen@.len() == derefs(chosen@).len());
        }
        Ok(chosen.len())
    }

    /// Drops the configuration of a tenant, after checking its id.
    pub fn clear_cache(&mut self, tenant_id: &str) -> (r: Result<(), ConfigurationError>)
        ensures
            final(self).settings_view() == old(self).settings_view(),
            final(self).counters() == old(self).counters(),
            match tenant_id_problem(tenant_id@) {
                Some(m) => r matches Err(e) && e@ == ConfigErrorModel::ValidationError(m) && final(self).configs()
                    == old(self).configs(),
                None => r is Ok && final(self).configs() == old(self).configs().remove(tenant_id@),
            },
    {
        proof {
            use_type_invariant(&*self);
        }
        match self.validate_tenant_id(tenant_id) {
            Ok(()) => {},
            Err(e) => {
                return Err(e);
            },
        }
        let mut m = StrMap::new();
        std::mem::swap(&mut m, &mut self.configurations);
        let _ = m.remove(tenant_id);
        self.configurations = m;
        Ok(())
    }

    /// Stores the configurations of a backup in order, returning how many
    /// were stored: each replaces the stored configuration of its tenant,
    /// unless that tenant already has one and `overwrite_existing` is false.
    pub fn restore_configurations_from(&mut self, configs: Vec<TenantConfiguration>, overwrite_existing: bool) -> (r: usize)
        ensures
            final(self).settings_view() == old(self).settings_view(),
            final(self).counters() == old(self).counters(),
            final(self).configs() == restored_state(old(self).configs(), configs@, overwrite_existing, configs@.len()),
            r == restored_count(old(self).configs(), configs@, overwrite_existing, configs@.len()),
    {
        proof {
            use_type_invariant(&*self);
        }
        let ghost m0 = self.configs();
        let ghost all = configs@;
        let mut m = StrMap::new();
        std::mem::swap(&mut m, &mut self.configurations);
        let mut rest = configs;
        let n = rest.len();
        let mut count: usize = 0;
        let mut i: usize = 0;
        while i < n
            invariant
                n == all.len(),
                i <= n,
                rest@ == all.skip(i as int),
                m@ == restored_state(m0, all, overwrite_existing, i as nat),
                count == restored_count(m0, all, overwrite_existing, i as nat),
                forall|k: Seq<char>| #[trigger] m@.contains_key(k) ==> m@[k].tenant_id@ == k,
            decreases n - i,
        {
            proof {
                lemma_restored_count_bound(m0, all, overwrite_existing, i as nat);
            }
            let c = rest.remove(0);
            assert(c == all[i as int]);
            assert(rest@ =~= all.skip(i + 1));
            if overwrite_existing || !m.contains_key(c.tenant_id.as_str()) {
                let key = c.tenant_id.clone();
                m.insert(key, c);
                count = count + 1;
            }
            i = i + 1;
        }
        self.configurations = m;
        count
    }
}


/// The total of the given sizes.
pub open spec fn sum_sizes(s: Seq<usize>) -> nat
    decreases s.len(),
{
    if s.len() == 0 {
        0
    } else {
        sum_sizes(s.drop_last()) + s.last() as nat
    }
}

/// The latest creation instant among the configurations, if any.
pub open spec fn newest_created(s: Seq<TenantConfiguration>) -> Option<i64>
    decreases s.len(),
{
    if s.len() == 0 {
        None
    } else {
        let t = s.last().created_at;
        match newest_created(s.drop_last()) {
            Some(u) => Some(if t > u { t } else { u }),
            None => Some(t),
        }
    }
}

/// The earliest creation instant among the configurations, if any.
pub open spec fn oldest_created(s: Seq<TenantConfiguration>) -> Option<i64>
    decreases s.len(),
{
    if s.len() == 0 {
        None
    } else {
        let t = s.last().created_at;
        match oldest_created(s.drop_last()) {
            Some(u) => Some(if t < u { t } else { u }),
            None => Some(t),
        }
    }
}

/// The number of configurations with version `v`.
pub open spec fn version_count(s: Seq<TenantConfiguration>, v: u64) -> nat {
    s.filter(|c: TenantConfiguration| c.version == v).len()
}

/// The number of configurations per version held by some of them.
pub open spec fn version_counts(s: Seq<TenantConfiguration>) -> Map<u64, usize> {
    Map::new(
        |v: u64| exists|i: int| 0 <= i < s.len() && #[trigger] s[i].version == v,
        |v: u64| version_count(s, v) as usize,
    )
}

/// The number of microseconds in a day.
pub open spec fn day_micros() -> int {
    86_400_000_000
}

/// Whether the configuration was created in the day before `now`.
pub open spec fn created_recently(c: TenantConfiguration, now: i64) -> bool {
    c.created_at > now - day_micros()
}

/// Whether the configuration was modified in the day before `now`.
pub open spec fn modified_recently(c: TenantConfiguration, now: i64) -> bool {
    c.last_modified > now - day_micros()
}

proof fn lemma_version_counts_push(s: Seq<TenantConfiguration>, c: TenantConfiguration)
    requires
        s.len() < usize::MAX,
    ensures
        version_counts(s.push(c)) == version_counts(s).insert(
            c.version,
            (if version_counts(s).contains_key(c.version) { version_counts(s)[c.version] + 1 } else { 1 }) as usize,
        ),
{
    let t = s.push(c);
    assert forall|w: u64| true implies version_count(t, w) == version_count(s, w) + if c.version == w { 1nat } else { 0nat } by {
        s.lemma_filter_push(c, |x: TenantConfiguration| x.version == w);
    }
    assert forall|w: u64| #[trigger] version_counts(s).contains_key(w) implies version_count(s, w) >= 1 by {
        let i = choose|i: int| 0 <= i < s.len() && #[trigger] s[i].version == w;
        s.lemma_filter_contains(|x: TenantConfiguration| x.version == w, i);
    }
    assert forall|w: u64| !(#[trigger] version_counts(s).contains_key(w)) implies version_count(s, w) == 0 by {
        let f = s.filter(|x: TenantConfiguration| x.version == w);
        if f.len() > 0 {
            s.lemma_filter_pred(|x: TenantConfiguration| x.version == w, 0);
            assert(f.contains(f[0]));
            s.lemma_filter_contains_rev(|x: TenantConfiguration| x.version == w, f[0]);
            let j = choose|j: int| 0 <= j < s.len() && s[j] == f[0];
            assert(s[j].version == w);
        }
    }
    assert forall|w: u64| true implies version_count(s, w) <= s.len() by {
        s.lemma_filter_len(|x: TenantConfiguration| x.version == w);
    }
    assert forall|w: u64| #[trigger] version_counts(t).contains_key(w) <==> (version_counts(s).contains_key(w) || w == c.version) by {
        if version_counts(s).contains_key(w) {
            let i = choose|i: int| 0 <= i < s.len() && #[trigger] s[i].version == w;
            assert(t[i] == s[i]);
        }
        if w == c.version {
            assert(t[s.len() as int] == c);
        }
        if version_counts(t).contains_key(w) && w != c.version {
            let i = choose|i: int| 0 <= i < t.len() && #[trigger] t[i].version == w;
            assert(i < s.len());
            assert(s[i] == t[i]);
        }
    }
    assert(version_counts(t) =~= version_counts(s).insert(
        c.version,
        (if version_counts(s).contains_key(c.version) { version_counts(s)[c.version] + 1 } else { 1 }) as usize,
    ));
}

/// Whether `st` holds the statistics of the configurations `all` at
/// instant `now`, with serialised sizes `sizes`.
pub open spec fn stats_describe(st: ConfigurationStats, all: Seq<TenantConfiguration>, now: i64, sizes: Seq<usize>) -> bool {
    &&& st.total_configurations == all.len()
    &&& st.recent_configurations == all.filter(|c: TenantConfiguration| created_recently(c, now)).len()
    &&& st.recently_modified == all.filter(|c: TenantConfiguration| modified_recently(c, now)).len()
    &&& st.total_storage_used == sum_sizes(sizes)
    &&& st.average_size == if all.len() > 0 {
        sum_sizes(sizes) / all.len()
    } else {
        0
    }
    &&& st.newest_configuration == newest_created(all)
    &&& st.oldest_configuration == oldest_created(all)
    &&& st.version_distribution@ == version_counts(all)
}

impl InMemoryConfigurationProvider {
    /// Statistics of the stored configurations at instant `now`; `sizes[i]`
    /// is the serialised size of the `i`-th stored configuration, in
    /// storage order. Counts those created and modified in the day before
    /// `now`, the total and average size, the newest and oldest creation
    /// instants, and the number of configurations per version.
    pub fn get_configuration_stats_at(&self, now: i64, sizes: &Vec<usize>) -> (r: ConfigurationStats)
        requires
            sizes@.len() == self.stored_seq().len(),
            sum_sizes(sizes@) <= usize::MAX,
        ensures
            stats_describe(r, self.stored_seq(), now, sizes@),
    {
        broadcast use vstd::std_specs::hash::group_hash_axioms;
        let ghost all = self.stored_seq();
        let ghost recent = |c: TenantConfiguration| created_recently(c, now);
        let ghost modified = |c: TenantConfiguration| modified_recently(c, now);
        let n = self.configurations.len();
        let since: i128 = now as i128 - 86_400_000_000;
        let mut recent_count: usize = 0;
        let mut modified_count: usize = 0;
        let mut total_size: usize = 0;
        let mut newest: Option<i64> = None;
        let mut oldest: Option<i64> = None;
        let mut distribution: std::collections::HashMap<u64, usize> = std::collections::HashMap::new();
        let mut i: usize = 0;
        assert(all.take(0) =~= Seq::<TenantConfiguration>::empty());
        assert(sizes@.take(0) =~= Seq::<usize>::empty());
        assert(version_counts(all.take(0)) =~= Map::<u64, usize>::empty());
        while i < n
            invariant
                all == self.stored_seq(),
                recent == (|c: TenantConfiguration| created_recently(c, now)),
                modified == (|c: TenantConfiguration| modified_recently(c, now)),
                n == all.len(),
                sizes@.len() == n,
                sum_sizes(sizes@) <= usize::MAX,
                since == now - day_micros(),
                i <= n,
                recent_count == all.take(i as int).filter(recent).len(),
                modified_count == all.take(i as int).filter(modified).len(),
                total_size == sum_sizes(sizes@.take(i as int)),
                newest == newest_created(all.take(i as int)),
                oldest == oldest_created(all.take(i as int)),
                distribution@ == version_counts(all.take(i as int)),
            decreases n - i,
        {
            let c = self.configurations.value_at(i);
            assert(*c == all[i as int]);
            let ghost prev = all.take(i as int);
            assert(all.take(i + 1) =~= prev.push(all[i as int]));
            assert(all.take(i + 1).drop_last() =~= prev);
            assert(sizes@.take(i + 1).drop_last() =~= sizes@.take(i as int));
            proof {
                prev.lemma_filter_push(all[i as int], recent);
                prev.lemma_filter_push(all[i as int], modified);
                prev.lemma_filter_len(recent);
                prev.lemma_filter_len(modified);
                lemma_sum_prefix(sizes@, i as int + 1);
                lemma_version_counts_push(prev, all[i as int]);
            }
            if c.created_at as i128 > since {
                recent_count = recent_count + 1;
            }
            if c.last_modified as i128 > since {
                modified_count = modified_count + 1;
            }
            total_size = total_size + sizes[i];
            newest = match newest {
                Some(u) => Some(if c.created_at > u { c.created_at } else { u }),
                None => Some(c.created_at),
            };
            oldest = match oldest {
                Some(u) => Some(if c.created_at < u { c.created_at } else { u }),
                None => Some(c.created_at),
            };
            let count: usize = match distribution.get(&c.version) {
                Some(k) => *k,
                None => 0,
            };
            proof {
                assert forall|w: u64| true implies version_count(prev, w) <= prev.len() by {
                    prev.lemma_filter_len(|x: TenantConfiguration| x.version == w);
                }
            }
            distribution.insert(c.version, count + 1);
            i = i + 1;
        }
        assert(all.take(n as int) =~= all);
        assert(sizes@.take(n as int) =~= sizes@);
        let average = if n > 0 {
            total_size / n
        } else {
            0
        };
        ConfigurationStats {
            total_configurations: n,
            recent_configurations: recent_count,
            recently_modified: modified_count,
            average_size: average,
            total_storage_used: total_size,
            newest_configuration: newest,
            oldest_configuration: oldest,
            version_distribution: distribution,
        }
    }

    /// Statistics of the stored configurations now; see
    /// `get_configuration_stats_at`.
    pub fn get_configuration_stats(&self, sizes: &Vec<usize>) -> (r: Result<ConfigurationStats, ConfigurationError>)
        requires
            sizes@.len() == self.stored_seq().len(),
            sum_sizes(sizes@) <= usize::MAX,
        ensures
            r matches Ok(st) && exists|now: i64| #[trigger] stats_describe(st, self.stored_seq(), now, sizes@),
    {
        let now = now_micros();
        Ok(self.get_configuration_stats_at(now, sizes))
    }
}

proof fn lemma_sum_prefix(s: Seq<usize>, k: int)
    requires
        0 <= k <= s.len(),
    ensures
        sum_sizes(s.take(k)) <= sum_sizes(s),
    decreases s.len(),
{
    if s.len() > 0 && k < s.len() {
        assert(s.drop_last().take(k) =~= s.take(k));
        lemma_sum_prefix(s.drop_last(), k);
    } else if k == s.len() {
        assert(s.take(k) =~= s);
    }
}


proof fn lemma_restored_count_overwrite(
    m: Map<Seq<char>, TenantConfiguration>,
    configs: Seq<TenantConfiguration>,
    n: nat,
)
    ensures
        restored_count(m, configs, true, n) == n,
    decreases n,
{
    if n > 0 {
        lemma_restored_count_overwrite(m, configs, (n - 1) as nat);
    }
}

/// The error for a file the provider could not use: `action` says what it
/// tried (such as `read persistence` or `write backup`).
pub fn file_refused(action: &str, error: &str) -> (r: ConfigurationError)
    ensures
        r@ == ConfigErrorModel::ValidationError("Failed to "@ + action@ + " file: "@ + error@),
{
    let a = concat("Failed to ", action);
    let b = concat(a.as_str(), " file: ");
    ConfigurationError::ValidationError { message: concat(b.as_str(), error) }
}

/// The id of a backup written at `seconds` since the Unix epoch.
pub fn backup_id_at(seconds: i64) -> (r: String)
    ensures
        r@ == "backup-"@ + signed_text(seconds as int),
{
    concat("backup-", seconds.as_string().as_str())
}

/// The file of backup `backup_id` under `backup_location`.
pub fn backup_path(backup_location: &str, backup_id: &str) -> (r: String)
    ensures
        r@ == backup_location@ + "/"@ + backup_id@ + ".json"@,
{
    let a = concat(backup_location, "/");
    let b = concat(a.as_str(), backup_id);
    concat(b.as_str(), ".json")
}

impl InMemoryConfigurationProvider {
    /// The persistence file, when persistence is enabled and a file is set.
    pub fn persistence_target(&self) -> (r: Result<&String, ConfigurationError>)
        ensures
            !self.settings_view().enable_persistence ==> (r matches Err(e) && e@ == ConfigErrorModel::ValidationError(
                "Persistence is not enabled"@,
            )),
            self.settings_view().enable_persistence ==> match self.settings_view().persistence_file {
                Some(f) => r == Ok::<&String, ConfigurationError>(&f),
                None => r matches Err(e) && e@ == ConfigErrorModel::ValidationError("No persistence file configured"@),
            },
    {
        if !self.settings.enable_persistence {
            return Err(ConfigurationError::ValidationError { message: "Persistence is not enabled".to_string() });
        }
        match &self.settings.persistence_file {
            Some(f) => Ok(f),
            None => Err(ConfigurationError::ValidationError { message: "No persistence file configured".to_string() }),
        }
    }

    /// Stores the configurations read from the persistence file, each
    /// replacing the stored configuration of its tenant, and returns how
    /// many were read.
    pub fn load_configurations(&mut self, configs: Vec<TenantConfiguration>) -> (r: usize)
        ensures
            final(self).settings_view() == old(self).settings_view(),
            final(self).counters() == old(self).counters(),
            final(self).configs() == restored_state(old(self).configs(), configs@, true, configs@.len()),
            r == configs@.len(),
    {
        proof {
            lemma_restored_count_overwrite(self.configs(), configs@, configs@.len());
        }
        self.restore_configurations_from(configs, true)
    }
}


#[verifier::spinoff_prover]
proof fn lemma_restore_distinct(s: Seq<TenantConfiguration>, overwrite_existing: bool, n: nat)
    requires
        n <= s.len(),
        forall|i: int, j: int| 0 <= i < j < s.len() ==> s[i].tenant_id@ != s[j].tenant_id@,
    ensures
        restored_count(Map::empty(), s, overwrite_existing, n) == n,
        forall|i: int|
            0 <= i < n ==> #[trigger] restored_state(Map::empty(), s, overwrite_existing, n).contains_key(s[i].tenant_id@)
                && restored_state(Map::empty(), s, overwrite_existing, n)[s[i].tenant_id@] == s[i],
        forall|k: Seq<char>|
            #[trigger] restored_state(Map::empty(), s, overwrite_existing, n).contains_key(k) ==> exists|i: int|
                0 <= i < n && s[i].tenant_id@ == k,
    decreases n,
{
    if n > 0 {
        let m = (n - 1) as nat;
        lemma_restore_distinct(s, overwrite_existing, m);
        let prev = restored_state(Map::empty(), s, overwrite_existing, m);
        let c = s[m as int];
        if prev.contains_key(c.tenant_id@) {
            let i = choose|i: int| 0 <= i < m && s[i].tenant_id@ == c.tenant_id@;
            assert(s[i].tenant_id@ != s[m as int].tenant_id@);
        }
        let next = restored_state(Map::empty(), s, overwrite_existing, n);
        assert(next == prev.insert(c.tenant_id@, c));
        assert forall|i: int| 0 <= i < n implies #[trigger] next.contains_key(s[i].tenant_id@) && next[s[i].tenant_id@]
            == s[i] by {
            if i < m {
                assert(s[i].tenant_id@ != s[m as int].tenant_id@);
                assert(prev.contains_key(s[i].tenant_id@));
            }
        }
        assert forall|k: Seq<char>| #[trigger] next.contains_key(k) implies exists|i: int| 0 <= i < n && s[i].tenant_id@ == k by {
            if k != c.tenant_id@ {
                assert(prev.contains_key(k));
                let i = choose|i: int| 0 <= i < m && s[i].tenant_id@ == k;
                assert(0 <= i < n && s[i].tenant_id@ == k);
            } else {
                assert(0 <= m < n && s[m as int].tenant_id@ == k);
            }
        }
    }
}

/// Restoring configurations of distinct tenants into an empty store stores
/// every one of them under its tenant and nothing else, and counts them
/// all: a backup taken of a store comes back whole after the store is
/// cleared.
pub proof fn law_restore_into_empty_store(s: Seq<TenantConfiguration>, overwrite_existing: bool)
    requires
        forall|i: int, j: int| 0 <= i < j < s.len() ==> s[i].tenant_id@ != s[j].tenant_id@,
    ensures
        restored_count(Map::empty(), s, overwrite_existing, s.len()) == s.len(),
        forall|i: int|
            0 <= i < s.len() ==> #[trigger] restored_state(Map::empty(), s, overwrite_existing, s.len()).contains_key(
                s[i].tenant_id@,
            ) && restored_state(Map::empty(), s, overwrite_existing, s.len())[s[i].tenant_id@] == s[i],
        forall|k: Seq<char>|
            #[trigger] restored_state(Map::empty(), s, overwrite_existing, s.len()).contains_key(k) ==> exists|i: int|
                0 <= i < s.len() && s[i].tenant_id@ == k,
{
    lemma_restore_distinct(s, overwrite_existing, s.len());
}

} // verus!
