//! The database-backed configuration store: the statements it sends, what
//! it makes of the answers, and its state (a cache of configurations and
//! statistics). Sending a statement and waiting for the answer is left to
//! the caller, which also turns the four configuration sections into the
//! JSON text they are stored as, and back.

use vstd::prelude::*;
use crate::collections::StrMap;
use crate::ids::{format_rfc3339, now_micros, rfc3339_rendering, rfc3339_text};
use crate::json::json_i64;
use crate::multi_tenant::config_database::{ConfigurationListing, ConfigurationRow, row_text, texts};
use crate::multi_tenant::config_provider::{
    BulkConfigurationOperation, BulkOperationResult, ConfigurationStats, error_text,
};
use crate::multi_tenant::config_inmemory::{bulk_name, bulk_tenant};
use crate::multi_tenant::configuration::{
    BrandingConfiguration, ComplianceConfiguration, ConfigErrorModel, ConfigurationError, OperationalConfiguration,
    SchemaConfiguration, TenantConfiguration, configuration_problem,
};
use crate::multi_tenant::database::{DatabaseParameter, DatabaseResult, signed_text};
use crate::text::{concat, owned, str_eq};

verus! {

/// A statement for the database: its SQL text, its parameters as text, the
/// tenant it runs for, and the words that open the error reported when the
/// database refuses it.
#[derive(Debug)]
pub struct ConfigurationStatement {
    pub sql: String,
    pub params: Vec<String>,
    pub tenant_id: String,
    pub context: String,
}

/// The four sections of a configuration as the JSON text they are stored in.
#[derive(Debug, Clone)]
pub struct ConfigurationSections {
    pub schema: String,
    pub operational: String,
    pub compliance: String,
    pub branding: String,
}

/// Whether `s` sends `sql` with `params` for `tenant`, failing with `context`.
pub open spec fn statement_is(
    s: ConfigurationStatement,
    sql: Seq<char>,
    params: Seq<Seq<char>>,
    tenant: Seq<char>,
    context: Seq<char>,
) -> bool {
    &&& s.sql@ == sql
    &&& texts(s.params@) == params
    &&& s.tenant_id@ == tenant
    &&& s.context@ == context
}

/// The error reported when the database refuses a statement with `context`,
/// given the database's error text.
pub open spec fn refusal(context: Seq<char>, error: Seq<char>) -> ConfigErrorModel {
    ConfigErrorModel::ValidationError(context + ": "@ + error)
}

impl ConfigurationStatement {
    /// The error reported when the database refuses this statement with the
    /// error text `error`.
    pub fn refused(&self, error: &str) -> (r: ConfigurationError)
        ensures
            r@ == refusal(self.context@, error@),
    {
        let a = concat(self.context.as_str(), ": ");
        ConfigurationError::ValidationError { message: concat(a.as_str(), error) }
    }
}

fn statement(sql: &str, params: Vec<String>, tenant_id: &str, context: &str) -> (r: ConfigurationStatement)
    ensures
        statement_is(r, sql@, texts(params@), tenant_id@, context@),
{
    ConfigurationStatement { sql: owned(sql), params, tenant_id: owned(tenant_id), context: owned(context) }
}

/// The table of configurations.
pub open spec fn configurations_table_sql() -> Seq<char> {
    "\n            CREATE TABLE IF NOT EXISTS tenant_configurations (\n                tenant_id VARCHAR(255) PRIMARY KEY,\n                display_name VARCHAR(255) NOT NULL,\n                created_at TIMESTAMP NOT NULL,\n                last_modified TIMESTAMP NOT NULL,\n                version INTEGER NOT NULL DEFAULT 1,\n                schema_config TEXT NOT NULL,\n                operational_config TEXT NOT NULL,\n                compliance_config TEXT NOT NULL,\n                branding_config TEXT NOT NULL,\n                INDEX idx_tenant_id (tenant_id),\n                INDEX idx_last_modified (last_modified)\n            )\n        "@
}

/// The table of the audit log.
pub open spec fn audit_table_sql() -> Seq<char> {
    "\n            CREATE TABLE IF NOT EXISTS configuration_audit_log (\n                id BIGINT AUTO_INCREMENT PRIMARY KEY,\n                tenant_id VARCHAR(255) NOT NULL,\n                operation VARCHAR(50) NOT NULL,\n                old_version INTEGER,\n                new_version INTEGER,\n                changed_by VARCHAR(255),\n                changed_at TIMESTAMP NOT NULL DEFAULT CURRENT_TIMESTAMP,\n                changes TEXT,\n                INDEX idx_tenant_audit (tenant_id, changed_at),\n                INDEX idx_operation (operation)\n            )\n        "@
}

/// The table of backups.
pub open spec fn backups_table_sql() -> Seq<char> {
    "\n            CREATE TABLE IF NOT EXISTS configuration_backups (\n                backup_id VARCHAR(255) PRIMARY KEY,\n                tenant_id VARCHAR(255) NOT NULL,\n                configuration TEXT NOT NULL,\n                created_at TIMESTAMP NOT NULL,\n                backup_type VARCHAR(50) NOT NULL DEFAULT 'manual',\n                description TEXT,\n                INDEX idx_tenant_backups (tenant_id, created_at),\n                INDEX idx_backup_type (backup_type)\n            )\n        "@
}

/// The statements that set up the schema: none when the database reports
/// its schema valid, else the three tables, run for the tenant `system`.
pub fn schema_statements(schema_valid: bool) -> (r: Vec<ConfigurationStatement>)
    ensures
        schema_valid ==> r@.len() == 0,
        !schema_valid ==> {
            &&& r@.len() == 3
            &&& statement_is(r@[0], configurations_table_sql(), seq![], "system"@, "Failed to create configurations table"@)
            &&& statement_is(r@[1], audit_table_sql(), seq![], "system"@, "Failed to create audit table"@)
            &&& statement_is(r@[2], backups_table_sql(), seq![], "system"@, "Failed to create backups table"@)
        },
{
    let mut out: Vec<ConfigurationStatement> = Vec::new();
    if !schema_valid {
        let e0: Vec<String> = Vec::new();
        let e1: Vec<String> = Vec::new();
        let e2: Vec<String> = Vec::new();
        proof {
            assert(texts(e0@) =~= Seq::<Seq<char>>::empty());
        }
        out.push(statement(
            "\n            CREATE TABLE IF NOT EXISTS tenant_configurations (\n                tenant_id VARCHAR(255) PRIMARY KEY,\n                display_name VARCHAR(255) NOT NULL,\n                created_at TIMESTAMP NOT NULL,\n                last_modified TIMESTAMP NOT NULL,\n                version INTEGER NOT NULL DEFAULT 1,\n                schema_config TEXT NOT NULL,\n                operational_config TEXT NOT NULL,\n                compliance_config TEXT NOT NULL,\n                branding_config TEXT NOT NULL,\n                INDEX idx_tenant_id (tenant_id),\n                INDEX idx_last_modified (last_modified)\n            )\n        ",
            e0,
            "system",
            "Failed to create configurations table",
        ));
        out.push(statement(
            "\n            CREATE TABLE IF NOT EXISTS configuration_audit_log (\n                id BIGINT AUTO_INCREMENT PRIMARY KEY,\n                tenant_id VARCHAR(255) NOT NULL,\n                operation VARCHAR(50) NOT NULL,\n                old_version INTEGER,\n                new_version INTEGER,\n                changed_by VARCHAR(255),\n                changed_at TIMESTAMP NOT NULL DEFAULT CURRENT_TIMESTAMP,\n                changes TEXT,\n                INDEX idx_tenant_audit (tenant_id, changed_at),\n                INDEX idx_operation (operation)\n            )\n        ",
            e1,
            "system",
            "Failed to create audit table",
        ));
        out.push(statement(
            "\n            CREATE TABLE IF NOT EXISTS configuration_backups (\n                backup_id VARCHAR(255) PRIMARY KEY,\n                tenant_id VARCHAR(255) NOT NULL,\n                configuration TEXT NOT NULL,\n                created_at TIMESTAMP NOT NULL,\n                backup_type VARCHAR(50) NOT NULL DEFAULT 'manual',\n                description TEXT,\n                INDEX idx_tenant_backups (tenant_id, created_at),\n                INDEX idx_backup_type (backup_type)\n            )\n        ",
            e2,
            "system",
            "Failed to create backups table",
        ));
    }
    out
}

/// The error reported when the database cannot say whether its schema is valid.
pub fn schema_check_refused(error: &str) -> (r: ConfigurationError)
    ensures
        r@ == refusal("Database schema validation failed"@, error@),
{
    let a = concat("Database schema validation failed", ": ");
    ConfigurationError::ValidationError { message: concat(a.as_str(), error) }
}

/// The statement that stores a new configuration.
pub open spec fn insert_sql() -> Seq<char> {
    "\n            INSERT INTO tenant_configurations\n            (tenant_id, display_name, created_at, last_modified, version,\n             schema_config, operational_config, compliance_config, branding_config)\n            VALUES (?, ?, ?, ?, ?, ?, ?, ?, ?)\n        "@
}

/// The statement that reads one configuration.
pub open spec fn select_sql() -> Seq<char> {
    "\n            SELECT tenant_id, display_name, created_at, last_modified, version,\n                   schema_config, operational_config, compliance_config, branding_config\n            FROM tenant_configurations\n            WHERE tenant_id = ?\n        "@
}

/// The statement that replaces a configuration of a given version.
pub open spec fn update_sql() -> Seq<char> {
    "\n            UPDATE tenant_configurations\n            SET display_name = ?, last_modified = ?, version = ?,\n                schema_config = ?, operational_config = ?,\n                compliance_config = ?, branding_config = ?\n            WHERE tenant_id = ? AND version = ?\n        "@
}

/// The parameters that store configuration `c` with its sections `s`.
pub open spec fn insert_params(c: TenantConfiguration, s: ConfigurationSections) -> Seq<Seq<char>> {
    seq![
        c.tenant_id@,
        c.display_name@,
        rfc3339_text(c.created_at),
        rfc3339_text(c.last_modified),
        signed_text((c.version as i64) as int),
        s.schema@,
        s.operational@,
        s.compliance@,
        s.branding@,
    ]
}

/// The parameters that replace the stored configuration of version
/// `current` by `c`, with its sections `s`.
pub open spec fn update_params(c: TenantConfiguration, s: ConfigurationSections, current: u64) -> Seq<Seq<char>> {
    seq![
        c.display_name@,
        rfc3339_text(c.last_modified),
        signed_text((c.version as i64) as int),
        s.schema@,
        s.operational@,
        s.compliance@,
        s.branding@,
        c.tenant_id@,
        signed_text((current as i64) as int),
    ]
}

/// The statement that stores configuration `config` with its sections.
/// Its instants are rendered as RFC 3339 text; `None` exactly when chrono
/// gives no text for one of them.
pub fn insert_statement(config: &TenantConfiguration, sections: &ConfigurationSections) -> (r: Option<ConfigurationStatement>)
    ensures
        r is Some <==> (rfc3339_rendering(config.created_at) is Some && rfc3339_rendering(config.last_modified) is Some),
        r matches Some(s) ==> statement_is(
            s,
            insert_sql(),
            insert_params(*config, *sections),
            config.tenant_id@,
            "Failed to create configuration"@,
        ),
{
    let created = match format_rfc3339(config.created_at) {
        Some(t) => t,
        None => {
            return None;
        },
    };
    let modified = match format_rfc3339(config.last_modified) {
        Some(t) => t,
        None => {
            return None;
        },
    };
    let version: i64 = config.version as i64;
    let mut params: Vec<String> = Vec::new();
    params.push(config.tenant_id.clone());
    params.push(config.display_name.clone());
    params.push(created);
    params.push(modified);
    params.push(version.as_string());
    params.push(sections.schema.clone());
    params.push(sections.operational.clone());
    params.push(sections.compliance.clone());
    params.push(sections.branding.clone());
    proof {
        assert(texts(params@) =~= insert_params(*config, *sections));
    }
    Some(statement(
        "\n            INSERT INTO tenant_configurations\n            (tenant_id, display_name, created_at, last_modified, version,\n             schema_config, operational_config, compliance_config, branding_config)\n            VALUES (?, ?, ?, ?, ?, ?, ?, ?, ?)\n        ",
        params,
        config.tenant_id.as_str(),
        "Failed to create configuration",
    ))
}

/// The statement that reads the configuration of a tenant.
pub fn select_statement(tenant_id: &str) -> (r: ConfigurationStatement)
    ensures
        statement_is(r, select_sql(), seq![tenant_id@], tenant_id@, "Failed to query configuration"@),
{
    let mut params: Vec<String> = Vec::new();
    params.push(owned(tenant_id));
    proof {
        assert(texts(params@) =~= seq![tenant_id@]);
    }
    statement(
        "\n            SELECT tenant_id, display_name, created_at, last_modified, version,\n                   schema_config, operational_config, compliance_config, branding_config\n            FROM tenant_configurations\n            WHERE tenant_id = ?\n        ",
        params,
        tenant_id,
        "Failed to query configuration",
    )
}

/// The statement that tells whether a tenant has a configuration.
pub fn exists_statement(tenant_id: &str) -> (r: ConfigurationStatement)
    ensures
        statement_is(
            r,
            "SELECT 1 FROM tenant_configurations WHERE tenant_id = ? LIMIT 1"@,
            seq![tenant_id@],
            tenant_id@,
            "Failed to check configuration existence"@,
        ),
{
    let mut params: Vec<String> = Vec::new();
    params.push(owned(tenant_id));
    proof {
        assert(texts(params@) =~= seq![tenant_id@]);
    }
    statement(
        "SELECT 1 FROM tenant_configurations WHERE tenant_id = ? LIMIT 1",
        params,
        tenant_id,
        "Failed to check configuration existence",
    )
}

/// The statement that counts the stored configurations.
pub fn count_statement() -> (r: ConfigurationStatement)
    ensures
        statement_is(
            r,
            "SELECT COUNT(*) as count FROM tenant_configurations"@,
            seq![],
            "system"@,
            "Failed to count configurations"@,
        ),
{
    let params: Vec<String> = Vec::new();
    proof {
        assert(texts(params@) =~= Seq::<Seq<char>>::empty());
    }
    statement("SELECT COUNT(*) as count FROM tenant_configurations", params, "system", "Failed to count configurations")
}

/// The statement that replaces the stored configuration of version
/// `current_version` by `updated`, with its sections; `None` exactly when
/// chrono gives no RFC 3339 text for its modification instant.
pub fn update_statement(
    updated: &TenantConfiguration,
    sections: &ConfigurationSections,
    current_version: u64,
) -> (r: Option<ConfigurationStatement>)
    ensures
        r is Some <==> rfc3339_rendering(updated.last_modified) is Some,
        r matches Some(s) ==> statement_is(
            s,
            update_sql(),
            update_params(*updated, *sections, current_version),
            updated.tenant_id@,
            "Failed to update configuration"@,
        ),
{
    let modified = match format_rfc3339(updated.last_modified) {
        Some(t) => t,
        None => {
            return None;
        },
    };
    let version: i64 = updated.version as i64;
    let current: i64 = current_version as i64;
    let mut params: Vec<String> = Vec::new();
    params.push(updated.display_name.clone());
    params.push(modified);
    params.push(version.as_string());
    params.push(sections.schema.clone());
    params.push(sections.operational.clone());
    params.push(sections.compliance.clone());
    params.push(sections.branding.clone());
    params.push(updated.tenant_id.clone());
    params.push(current.as_string());
    proof {
        assert(texts(params@) =~= update_params(*updated, *sections, current_version));
    }
    Some(statement(
        "\n            UPDATE tenant_configurations\n            SET display_name = ?, last_modified = ?, version = ?,\n                schema_config = ?, operational_config = ?,\n                compliance_config = ?, branding_config = ?\n            WHERE tenant_id = ? AND version = ?\n        ",
        params,
        updated.tenant_id.as_str(),
        "Failed to update configuration",
    ))
}

/// The statement that deletes the configuration of a tenant, of the given
/// version when one is expected.
pub fn delete_statement(tenant_id: &str, expected_version: Option<u64>) -> (r: ConfigurationStatement)
    ensures
        match expected_version {
            Some(v) => statement_is(
                r,
                "DELETE FROM tenant_configurations WHERE tenant_id = ? AND version = ?"@,
                seq![tenant_id@, signed_text((v as i64) as int)],
                tenant_id@,
                "Failed to delete configuration"@,
            ),
            None => statement_is(
                r,
                "DELETE FROM tenant_configurations WHERE tenant_id = ?"@,
                seq![tenant_id@],
                tenant_id@,
                "Failed to delete configuration"@,
            ),
        },
{
    let mut params: Vec<String> = Vec::new();
    params.push(owned(tenant_id));
    match expected_version {
        Some(v) => {
            let version: i64 = v as i64;
            params.push(version.as_string());
            proof {
                assert(texts(params@) =~= seq![tenant_id@, signed_text((v as i64) as int)]);
            }
            statement(
                "DELETE FROM tenant_configurations WHERE tenant_id = ? AND version = ?",
                params,
                tenant_id,
                "Failed to delete configuration",
            )
        },
        None => {
            proof {
                assert(texts(params@) =~= seq![tenant_id@]);
            }
            statement("DELETE FROM tenant_configurations WHERE tenant_id = ?", params, tenant_id, "Failed to delete configuration")
        },
    }
}

/// The statement that records an audit entry.
pub open spec fn audit_sql() -> Seq<char> {
    "\n            INSERT INTO configuration_audit_log\n            (tenant_id, operation, old_version, new_version, changed_by, changes)\n            VALUES (?, ?, ?, ?, ?, ?)\n        "@
}

/// A version as an audit parameter: `-1` when there is none.
pub open spec fn audit_version(v: Option<u64>) -> Seq<char> {
    match v {
        Some(x) => signed_text((x as i64) as int),
        None => signed_text(-1),
    }
}

/// The parameters of an audit entry.
pub open spec fn audit_params(
    tenant_id: Seq<char>,
    operation: Seq<char>,
    old_version: Option<u64>,
    new_version: Option<u64>,
    changed_by: Option<Seq<char>>,
    changes: Option<Seq<char>>,
) -> Seq<Seq<char>> {
    seq![
        tenant_id,
        operation,
        audit_version(old_version),
        audit_version(new_version),
        match changed_by {
            Some(b) => b,
            None => "system"@,
        },
        match changes {
            Some(c) => c,
            None => ""@,
        },
    ]
}

/// The view of an optional text.
pub open spec fn opt_text(t: Option<&str>) -> Option<Seq<char>> {
    match t {
        Some(x) => Some(x@),
        None => None,
    }
}

fn version_param(v: Option<u64>) -> (r: String)
    ensures
        r@ == audit_version(v),
{
    let n: i64 = match v {
        Some(x) => x as i64,
        None => -1,
    };
    n.as_string()
}

/// The statement that records an audit entry of an operation on the
/// configuration of a tenant; an absent author is `system`.
pub fn audit_statement(
    tenant_id: &str,
    operation: &str,
    old_version: Option<u64>,
    new_version: Option<u64>,
    changed_by: Option<&str>,
    changes: Option<&str>,
) -> (r: ConfigurationStatement)
    ensures
        statement_is(
            r,
            audit_sql(),
            audit_params(tenant_id@, operation@, old_version, new_version, opt_text(changed_by), opt_text(changes)),
            tenant_id@,
            "Failed to log audit entry"@,
        ),
{
    let mut params: Vec<String> = Vec::new();
    params.push(owned(tenant_id));
    params.push(owned(operation));
    params.push(version_param(old_version));
    params.push(version_param(new_version));
    params.push(
        match changed_by {
            Some(b) => owned(b),
            None => owned("system"),
        },
    );
    params.push(
        match changes {
            Some(c) => owned(c),
            None => owned(""),
        },
    );
    proof {
        assert(texts(params@) =~= audit_params(
            tenant_id@,
            operation@,
            old_version,
            new_version,
            opt_text(changed_by),
            opt_text(changes),
        ));
    }
    statement(
        "\n            INSERT INTO configuration_audit_log\n            (tenant_id, operation, old_version, new_version, changed_by, changes)\n            VALUES (?, ?, ?, ?, ?, ?)\n        ",
        params,
        tenant_id,
        "Failed to log audit entry",
    )
}

/// The statement that stores a backup.
pub open spec fn backup_sql() -> Seq<char> {
    "\n            INSERT INTO configuration_backups\n            (backup_id, tenant_id, configuration, created_at, backup_type, description)\n            VALUES (?, ?, ?, ?, 'manual', ?)\n        "@
}

/// The statement that stores the backup `backup_id` of the configuration of
/// a tenant, given as JSON text, taken at instant `now`; an absent
/// description is empty. `None` exactly when chrono gives no RFC 3339 text
/// for `now`.
pub fn backup_statement(
    backup_id: &str,
    tenant_id: &str,
    configuration: &str,
    now: i64,
    description: Option<&str>,
) -> (r: Option<ConfigurationStatement>)
    ensures
        r is Some <==> rfc3339_rendering(now) is Some,
        r matches Some(s) ==> statement_is(
            s,
            backup_sql(),
            seq![
                backup_id@,
                tenant_id@,
                configuration@,
                rfc3339_text(now),
                match description {
                    Some(d) => d@,
                    None => ""@,
                },
            ],
            tenant_id@,
            "Failed to create backup"@,
        ),
{
    let at = match format_rfc3339(now) {
        Some(t) => t,
        None => {
            return None;
        },
    };
    let mut params: Vec<String> = Vec::new();
    params.push(owned(backup_id));
    params.push(owned(tenant_id));
    params.push(owned(configuration));
    params.push(at);
    params.push(
        match description {
            Some(d) => owned(d),
            None => owned(""),
        },
    );
    proof {
        assert(texts(params@) =~= seq![
            backup_id@,
            tenant_id@,
            configuration@,
            rfc3339_text(now),
            match description {
                Some(d) => d@,
                None => ""@,
            },
        ]);
    }
    Some(statement(
        "\n            INSERT INTO configuration_backups\n            (backup_id, tenant_id, configuration, created_at, backup_type, description)\n            VALUES (?, ?, ?, ?, 'manual', ?)\n        ",
        params,
        tenant_id,
        "Failed to create backup",
    ))
}

/// The statement that reads the backup `backup_id` of a tenant.
pub fn backup_select_statement(backup_id: &str, tenant_id: &str) -> (r: ConfigurationStatement)
    ensures
        statement_is(
            r,
            "\n            SELECT configuration\n            FROM configuration_backups\n            WHERE backup_id = ? AND tenant_id = ?\n        "@,
            seq![backup_id@, tenant_id@],
            tenant_id@,
            "Failed to query backup"@,
        ),
{
    let mut params: Vec<String> = Vec::new();
    params.push(owned(backup_id));
    params.push(owned(tenant_id));
    proof {
        assert(texts(params@) =~= seq![backup_id@, tenant_id@]);
    }
    statement(
        "\n            SELECT configuration\n            FROM configuration_backups\n            WHERE backup_id = ? AND tenant_id = ?\n        ",
        params,
        tenant_id,
        "Failed to query backup",
    )
}

/// The statement that reads every configuration of the backup `backup_id`.
pub fn backups_select_statement(backup_id: &str) -> (r: ConfigurationStatement)
    ensures
        statement_is(
            r,
            "\n            SELECT tenant_id, configuration\n            FROM configuration_backups\n            WHERE backup_id = ?\n        "@,
            seq![backup_id@],
            "system"@,
            "Failed to query backups"@,
        ),
{
    let mut params: Vec<String> = Vec::new();
    params.push(owned(backup_id));
    proof {
        assert(texts(params@) =~= seq![backup_id@]);
    }
    statement(
        "\n            SELECT tenant_id, configuration\n            FROM configuration_backups\n            WHERE backup_id = ?\n        ",
        params,
        "system",
        "Failed to query backups",
    )
}

/// The statement that runs a listing query, for the tenant `system`.
pub fn listing_statement(listing: ConfigurationListing) -> (r: ConfigurationStatement)
    ensures
        statement_is(r, listing.sql@, texts(listing.params@), "system"@, "Failed to query configurations"@),
{
    statement(listing.sql.as_str(), listing.params, "system", "Failed to query configurations")
}

/// The stored configuration of a tenant, or the error `NotFound` when it
/// has none.
pub fn found(tenant_id: &str, current: Option<TenantConfiguration>) -> (r: Result<TenantConfiguration, ConfigurationError>)
    ensures
        match current {
            Some(c) => r == Ok::<TenantConfiguration, ConfigurationError>(c),
            None => r matches Err(e) && e@ == ConfigErrorModel::NotFound(tenant_id@),
        },
{
    match current {
        Some(c) => Ok(c),
        None => Err(ConfigurationError::NotFound { tenant_id: owned(tenant_id) }),
    }
}

/// Why a create is refused, if it is: the tenant already has a
/// configuration, or the configuration has a problem.
pub open spec fn create_refusal(exists: bool, c: TenantConfiguration) -> Option<ConfigErrorModel> {
    if exists {
        Some(ConfigErrorModel::Conflict("Configuration for tenant "@ + c.tenant_id@ + " already exists"@))
    } else {
        match configuration_problem(c) {
            Some(m) => Some(ConfigErrorModel::ValidationError(m)),
            None => None,
        }
    }
}

/// Decides whether configuration `config` may be created, given whether
/// its tenant already has one.
pub fn create_check(exists: bool, config: &TenantConfiguration) -> (r: Result<(), ConfigurationError>)
    ensures
        match create_refusal(exists, *config) {
            Some(p) => r matches Err(e) && e@ == p,
            None => r is Ok,
        },
{
    if exists {
        let a = concat("Configuration for tenant ", config.tenant_id.as_str());
        return Err(ConfigurationError::Conflict { message: concat(a.as_str(), " already exists") });
    }
    config.validate()
}

/// Why an update of `c` is refused, if it is, given the stored
/// configuration of its tenant.
pub open spec fn update_refusal(c: TenantConfiguration, current: Option<&TenantConfiguration>) -> Option<ConfigErrorModel> {
    match current {
        None => Some(ConfigErrorModel::NotFound(c.tenant_id@)),
        Some(cur) => if c.version != cur.version {
            Some(ConfigErrorModel::VersionMismatch(cur.version, c.version))
        } else {
            match configuration_problem(c) {
                Some(m) => Some(ConfigErrorModel::ValidationError(m)),
                None => None,
            }
        },
    }
}

/// The configuration an update stores at instant `now`: the next version,
/// modified at `now`.
pub open spec fn updated_at(c: TenantConfiguration, now: i64) -> TenantConfiguration {
    TenantConfiguration { last_modified: now, version: (c.version + 1) as u64, ..c }
}

/// Decides an update of `config` at instant `now`, given the stored
/// configuration of its tenant: the configuration to store, or why not.
pub fn update_check(config: TenantConfiguration, current: Option<&TenantConfiguration>, now: i64) -> (r: Result<
    TenantConfiguration,
    ConfigurationError,
>)
    requires
        update_refusal(config, current) is None ==> config.version < u64::MAX,
    ensures
        match update_refusal(config, current) {
            Some(p) => r matches Err(e) && e@ == p,
            None => r == Ok::<TenantConfiguration, ConfigurationError>(updated_at(config, now)),
        },
{
    match current {
        None => {
            return Err(ConfigurationError::NotFound { tenant_id: config.tenant_id.clone() });
        },
        Some(cur) => {
            if config.version != cur.version {
                return Err(ConfigurationError::VersionMismatch { expected: cur.version, actual: config.version });
            }
        },
    }
    match config.validate() {
        Err(e) => {
            return Err(e);
        },
        Ok(()) => {},
    }
    let mut updated = config;
    updated.version = updated.version + 1;
    updated.last_modified = now;
    Ok(updated)
}

/// What an update makes of the number of rows the database changed: none
/// means that the stored version moved on in between.
pub fn update_outcome(affected_rows: usize, expected: u64, actual: u64) -> (r: Result<(), ConfigurationError>)
    ensures
        affected_rows == 0 ==> (r matches Err(e) && e@ == ConfigErrorModel::VersionMismatch(expected, actual)),
        affected_rows > 0 ==> r is Ok,
{
    if affected_rows == 0 {
        Err(ConfigurationError::VersionMismatch { expected, actual })
    } else {
        Ok(())
    }
}

/// Decides a delete, given the stored configuration of the tenant: its
/// version, or the error when there is none.
pub fn delete_check(tenant_id: &str, current: Option<&TenantConfiguration>) -> (r: Result<u64, ConfigurationError>)
    ensures
        match current {
            Some(c) => r == Ok::<u64, ConfigurationError>(c.version),
            None => r matches Err(e) && e@ == ConfigErrorModel::NotFound(tenant_id@),
        },
{
    match current {
        Some(c) => Ok(c.version),
        None => Err(ConfigurationError::NotFound { tenant_id: owned(tenant_id) }),
    }
}

/// What a delete makes of the number of rows the database removed.
pub fn delete_outcome(tenant_id: &str, affected_rows: usize) -> (r: Result<(), ConfigurationError>)
    ensures
        affected_rows == 0 ==> (r matches Err(e) && e@ == ConfigErrorModel::NotFound(tenant_id@)),
        affected_rows > 0 ==> r is Ok,
{
    if affected_rows == 0 {
        Err(ConfigurationError::NotFound { tenant_id: owned(tenant_id) })
    } else {
        Ok(())
    }
}

/// Whether the answer to an existence query holds a row.
pub fn exists_answer(result: &DatabaseResult) -> (r: bool)
    ensures
        r == (result.rows@.len() > 0),
{
    result.rows.len() > 0
}

/// The count in the answer to a count query: the integer in the `count`
/// column of its first row, converted to `usize`; 0 when there is none.
pub open spec fn count_in(result: DatabaseResult) -> usize {
    if result.rows@.len() > 0 && result.rows@[0]@.contains_key("count"@) {
        match json_i64(result.rows@[0]@["count"@]@) {
            Some(c) => c as usize,
            None => 0,
        }
    } else {
        0
    }
}

/// Reads the answer to a count query.
pub fn count_answer(result: &DatabaseResult) -> (r: usize)
    ensures
        r == count_in(*result),
{
    if result.rows.len() == 0 {
        return 0;
    }
    match result.rows[0].get("count") {
        Some(v) => match v.as_i64() {
            Some(c) => c as usize,
            None => 0,
        },
        None => 0,
    }
}

/// The version a restored configuration gets: one past the current
/// version, or 1 when the tenant has none.
pub fn restored_version(current: Option<u64>) -> (r: u64)
    requires
        current != Some(u64::MAX),
    ensures
        r == match current {
            Some(v) => v + 1,
            None => 1,
        },
{
    match current {
        Some(v) => v + 1,
        None => 1,
    }
}

/// The JSON text of the configuration held in the answer to a backup
/// query: the error `NotFound` naming the backup when there is no row, a
/// validation error when the first row holds no text in its
/// `configuration` column.
pub fn backup_text(result: &DatabaseResult, backup_id: &str, tenant_id: &str) -> (r: Result<String, ConfigurationError>)
    ensures
        result.rows@.len() == 0 ==> (r matches Err(e) && e@ == ConfigErrorModel::NotFound(
            "backup "@ + backup_id@ + " for tenant "@ + tenant_id@,
        )),
        result.rows@.len() > 0 ==> match row_text(result.rows@[0], "configuration"@) {
            Some(t) => r matches Ok(s) && s@ == t,
            None => r matches Err(e) && e@ == ConfigErrorModel::ValidationError("Invalid backup data in database row"@),
        },
{
    if result.rows.len() == 0 {
        let a = concat("backup ", backup_id);
        let b = concat(a.as_str(), " for tenant ");
        return Err(ConfigurationError::NotFound { tenant_id: concat(b.as_str(), tenant_id) });
    }
    match result.rows[0].get("configuration") {
        Some(v) => match v.as_str() {
            Some(t) => Ok(t.clone()),
            None => Err(ConfigurationError::ValidationError { message: owned("Invalid backup data in database row") }),
        },
        None => Err(ConfigurationError::ValidationError { message: owned("Invalid backup data in database row") }),
    }
}

/// The tenants named by the rows of a backup listing, in order; a row
/// without a tenant id as text names the empty tenant.
pub fn backup_tenants(result: &DatabaseResult) -> (r: Vec<String>)
    ensures
        r@.len() == result.rows@.len(),
        forall|i: int|
            0 <= i < r@.len() ==> (#[trigger] r@[i])@ == match row_text(result.rows@[i], "tenant_id"@) {
                Some(t) => t,
                None => ""@,
            },
{
    let mut out: Vec<String> = Vec::new();
    let mut i: usize = 0;
    while i < result.rows.len()
        invariant
            i <= result.rows@.len(),
            out@.len() == i,
            forall|k: int|
                0 <= k < i ==> (#[trigger] out@[k])@ == match row_text(result.rows@[k], "tenant_id"@) {
                    Some(t) => t,
                    None => ""@,
                },
        decreases result.rows@.len() - i,
    {
        let name = match result.rows[i].get("tenant_id") {
            Some(v) => match v.as_str() {
                Some(t) => t.clone(),
                None => owned(""),
            },
            None => owned(""),
        };
        out.push(name);
        i = i + 1;
    }
    out
}

/// Whether a restore of a tenant goes ahead: always when overwriting,
/// else only for a tenant without a configuration.
pub fn restore_wanted(overwrite_existing: bool, exists: bool) -> (r: bool)
    ensures
        r == (overwrite_existing || !exists),
{
    overwrite_existing || !exists
}

/// The name of a backup taken at `seconds` since the Unix epoch.
pub fn backup_name(seconds: i64) -> (r: String)
    ensures
        r@ == "backup_"@ + signed_text(seconds as int),
{
    concat("backup_", seconds.as_string().as_str())
}

/// The audit note of a backup.
pub fn backup_note(backup_id: &str) -> (r: String)
    ensures
        r@ == "Configuration backed up with ID: "@ + backup_id@,
{
    concat("Configuration backed up with ID: ", backup_id)
}

/// The audit note of a restore.
pub fn restore_note(backup_id: &str) -> (r: String)
    ensures
        r@ == "Configuration restored from backup ID: "@ + backup_id@,
{
    concat("Configuration restored from backup ID: ", backup_id)
}

/// The result reported for one operation of a bulk request, given its
/// outcome: the configuration it gives on success, the error's message on
/// failure.
pub fn bulk_outcome(
    operation: &BulkConfigurationOperation,
    outcome: Result<Option<TenantConfiguration>, ConfigurationError>,
) -> (r: BulkOperationResult)
    ensures
        match outcome {
            Ok(c) => r matches BulkOperationResult::Success { tenant_id, operation: name, configuration } && tenant_id@
                == bulk_tenant(*operation) && name@ == bulk_name(*operation) && configuration == c,
            Err(e) => r matches BulkOperationResult::Error { tenant_id, operation: name, error } && tenant_id@
                == bulk_tenant(*operation) && name@ == bulk_name(*operation) && error@ == error_text(e),
        },
{
    let (tenant_id, name) = match operation {
        BulkConfigurationOperation::Create(c) => (c.tenant_id.clone(), owned("create")),
        BulkConfigurationOperation::Update(c) => (c.tenant_id.clone(), owned("update")),
        BulkConfigurationOperation::Delete { tenant_id, .. } => (tenant_id.clone(), owned("delete")),
        BulkConfigurationOperation::Validate(c) => (c.tenant_id.clone(), owned("validate")),
    };
    match outcome {
        Ok(configuration) => BulkOperationResult::Success { tenant_id, operation: name, configuration },
        Err(e) => BulkOperationResult::Error { tenant_id, operation: name, error: e.message() },
    }
}

/// The error for a row whose column holds no readable configuration section.
pub fn invalid_section(column: &str) -> (r: ConfigurationError)
    ensures
        r@ == ConfigErrorModel::ValidationError("Invalid "@ + column@ + " in database row"@),
{
    let a = concat("Invalid ", column);
    ConfigurationError::ValidationError { message: concat(a.as_str(), " in database row") }
}

/// The configuration made of the fields of a row and its four sections,
/// once the caller has read them from the row's JSON text.
pub fn configuration_from_row(
    row: ConfigurationRow,
    schema: SchemaConfiguration,
    operational: OperationalConfiguration,
    compliance: ComplianceConfiguration,
    branding: BrandingConfiguration,
) -> (r: TenantConfiguration)
    ensures
        r == (TenantConfiguration {
            tenant_id: row.tenant_id,
            display_name: row.display_name,
            created_at: row.created_at,
            last_modified: row.last_modified,
            version: row.version,
            schema,
            operational,
            compliance,
            branding,
        }),
{
    TenantConfiguration {
        tenant_id: row.tenant_id,
        display_name: row.display_name,
        created_at: row.created_at,
        last_modified: row.last_modified,
        version: row.version,
        schema,
        operational,
        compliance,
        branding,
    }
}

/// The whole seconds in a span of microseconds, rounded toward zero.
pub open spec fn whole_seconds(micros: int) -> int {
    if micros >= 0 {
        micros / 1_000_000
    } else {
        -((-micros) / 1_000_000)
    }
}

/// Whether an entry cached at `cached_at` is still served at `now`: its age
/// in whole seconds is below the time to live, taken as a signed 64-bit
/// number.
pub open spec fn cache_fresh(cached_at: i64, now: i64, ttl: u64) -> bool {
    whole_seconds(now - cached_at) < (ttl as i64) as int
}

/// The state of a database-backed configuration store: the configurations
/// it has cached, each with the instant it was cached at (in microseconds),
/// the time to live of the cache in seconds, and its statistics.
pub struct DatabaseConfigurationState {
    cache: StrMap<(TenantConfiguration, i64)>,
    cache_ttl: u64,
    stats: ConfigurationStats,
}

/// Empty statistics.
pub open spec fn empty_stats(s: ConfigurationStats) -> bool {
    &&& s.total_configurations == 0
    &&& s.recent_configurations == 0
    &&& s.recently_modified == 0
    &&& s.average_size == 0
    &&& s.total_storage_used == 0
    &&& s.newest_configuration is None
    &&& s.oldest_configuration is None
    &&& s.version_distribution@ == Map::<u64, usize>::empty()
}

/// The statistics after recording an operation at instant `now`: a create
/// adds a configuration, a delete removes one unless there are none, and
/// every operation sets the newest instant to `now`.
pub open spec fn recorded(s: ConfigurationStats, operation: Seq<char>, now: i64) -> ConfigurationStats {
    ConfigurationStats {
        total_configurations: if operation == "create"@ {
            (s.total_configurations + 1) as usize
        } else if operation == "delete"@ && s.total_configurations > 0 {
            (s.total_configurations - 1) as usize
        } else {
            s.total_configurations
        },
        newest_configuration: Some(now),
        ..s
    }
}

/// What the cache serves for a tenant at `now`.
pub open spec fn served(
    cache: Map<Seq<char>, (TenantConfiguration, i64)>,
    ttl: u64,
    tenant_id: Seq<char>,
    now: i64,
) -> Option<TenantConfiguration> {
    if cache.contains_key(tenant_id) && cache_fresh(cache[tenant_id].1, now, ttl) {
        Some(cache[tenant_id].0)
    } else {
        None
    }
}

fn age_is_fresh(cached_at: i64, now: i64, ttl: u64) -> (r: bool)
    ensures
        r == cache_fresh(cached_at, now, ttl),
{
    let ttl_signed: i64 = ttl as i64;
    if now >= cached_at {
        let age: u64 = (now as i128 - cached_at as i128) as u64;
        let secs: u64 = age / 1_000_000;
        ttl_signed >= 0 && (secs as i128) < (ttl_signed as i128)
    } else {
        let back: u64 = (cached_at as i128 - now as i128) as u64;
        let secs: u64 = back / 1_000_000;
        (0i128 - secs as i128) < (ttl_signed as i128)
    }
}

impl DatabaseConfigurationState {
    /// The cached configurations by tenant, with the instant each was cached at.
    pub closed spec fn cached(&self) -> Map<Seq<char>, (TenantConfiguration, i64)> {
        self.cache@
    }

    /// The time to live of the cache, in seconds.
    pub closed spec fn ttl(&self) -> u64 {
        self.cache_ttl
    }

    /// The statistics.
    pub closed spec fn stats_view(&self) -> ConfigurationStats {
        self.stats
    }

    /// A state with an empty cache whose entries live 300 seconds, and empty statistics.
    pub fn new() -> (r: DatabaseConfigurationState)
        ensures
            r.cached() == Map::<Seq<char>, (TenantConfiguration, i64)>::empty(),
            r.ttl() == 300,
            empty_stats(r.stats_view()),
    {
        Self::new_with_cache_ttl(300)
    }

    /// A state with an empty cache whose entries live `cache_ttl_seconds`, and empty statistics.
    pub fn new_with_cache_ttl(cache_ttl_seconds: u64) -> (r: DatabaseConfigurationState)
        ensures
            r.cached() == Map::<Seq<char>, (TenantConfiguration, i64)>::empty(),
            r.ttl() == cache_ttl_seconds,
            empty_stats(r.stats_view()),
    {
        DatabaseConfigurationState {
            cache: StrMap::new(),
            cache_ttl: cache_ttl_seconds,
            stats: ConfigurationStats {
                total_configurations: 0,
                recent_configurations: 0,
                recently_modified: 0,
                average_size: 0,
                total_storage_used: 0,
                newest_configuration: None,
                oldest_configuration: None,
                version_distribution: std::collections::HashMap::new(),
            },
        }
    }

    /// The time to live of the cache, in seconds.
    pub fn cache_ttl(&self) -> (r: u64)
        ensures
            r == self.ttl(),
    {
        self.cache_ttl
    }

    /// The cached configuration of a tenant, while it is fresh at `now`.
    pub fn get_from_cache_at(&self, tenant_id: &str, now: i64) -> (r: Option<&TenantConfiguration>)
        ensures
            match served(self.cached(), self.ttl(), tenant_id@, now) {
                Some(c) => r == Some(&c),
                None => r is None,
            },
    {
        match self.cache.get(tenant_id) {
            Some(entry) => {
                if age_is_fresh(entry.1, now, self.cache_ttl) {
                    Some(&entry.0)
                } else {
                    None
                }
            },
            None => None,
        }
    }

    /// Caches a configuration under its tenant at instant `now`, replacing
    /// any earlier entry.
    pub fn cache_configuration_at(&mut self, config: TenantConfiguration, now: i64)
        ensures
            final(self).cached() == old(self).cached().insert(config.tenant_id@, (config, now)),
            final(self).ttl() == old(self).ttl(),
            final(self).stats_view() == old(self).stats_view(),
    {
        let key = config.tenant_id.clone();
        self.cache.insert(key, (config, now));
    }

    /// Drops the cached configuration of a tenant.
    pub fn invalidate_cache(&mut self, tenant_id: &str)
        ensures
            final(self).cached() == old(self).cached().remove(tenant_id@),
            final(self).ttl() == old(self).ttl(),
            final(self).stats_view() == old(self).stats_view(),
    {
        self.cache.remove(tenant_id);
    }

    /// Drops every cached configuration.
    pub fn clear_cache(&mut self)
        ensures
            final(self).cached() == Map::<Seq<char>, (TenantConfiguration, i64)>::empty(),
            final(self).ttl() == old(self).ttl(),
            final(self).stats_view() == old(self).stats_view(),
    {
        self.cache.clear();
    }

    /// The number of cached configurations.
    pub fn cached_items(&self) -> (r: usize)
        ensures
            r == self.cached().len(),
    {
        self.cache.len()
    }

    /// Records an operation (`create`, `delete` or another) at instant `now`.
    pub fn update_stats_at(&mut self, operation: &str, now: i64)
        requires
            operation@ == "create"@ ==> old(self).stats_view().total_configurations < usize::MAX,
        ensures
            final(self).stats_view() == recorded(old(self).stats_view(), operation@, now),
            final(self).cached() == old(self).cached(),
            final(self).ttl() == old(self).ttl(),
    {
        if str_eq(operation, "create") {
            self.stats.total_configurations = self.stats.total_configurations + 1;
        } else if str_eq(operation, "delete") {
            if self.stats.total_configurations > 0 {
                self.stats.total_configurations = self.stats.total_configurations - 1;
            }
        }
        self.stats.newest_configuration = Some(now);
    }

    /// The cached configuration of a tenant, while it is fresh now.
    pub fn get_from_cache(&self, tenant_id: &str) -> (r: Option<&TenantConfiguration>)
        ensures
            exists|now: i64|
                match #[trigger] served(self.cached(), self.ttl(), tenant_id@, now) {
                    Some(c) => r == Some(&c),
                    None => r is None,
                },
    {
        let now = now_micros();
        self.get_from_cache_at(tenant_id, now)
    }

    /// Caches a configuration under its tenant now.
    pub fn cache_configuration(&mut self, config: TenantConfiguration)
        ensures
            exists|now: i64| #[trigger] final(self).cached() == old(self).cached().insert(config.tenant_id@, (config, now)),
            final(self).ttl() == old(self).ttl(),
            final(self).stats_view() == old(self).stats_view(),
    {
        let now = now_micros();
        self.cache_configuration_at(config, now);
    }

    /// Records an operation now.
    pub fn update_stats(&mut self, operation: &str)
        requires
            operation@ == "create"@ ==> old(self).stats_view().total_configurations < usize::MAX,
        ensures
            exists|now: i64| final(self).stats_view() == #[trigger] recorded(old(self).stats_view(), operation@, now),
            final(self).cached() == old(self).cached(),
            final(self).ttl() == old(self).ttl(),
    {
        let now = now_micros();
        self.update_stats_at(operation, now);
    }

    /// The statistics.
    pub fn get_configuration_stats(&self) -> (r: &ConfigurationStats)
        ensures
            *r == self.stats_view(),
    {
        &self.stats
    }
}

/// A configuration cached at `at` is served for its tenant at `later`
/// exactly while it is fresh, and then it is the configuration cached.
pub proof fn law_cached_configuration_is_served(
    before: Map<Seq<char>, (TenantConfiguration, i64)>,
    ttl: u64,
    config: TenantConfiguration,
    at: i64,
    later: i64,
)
    ensures
        served(before.insert(config.tenant_id@, (config, at)), ttl, config.tenant_id@, later) == if cache_fresh(
            at,
            later,
            ttl,
        ) {
            Some(config)
        } else {
            None
        },
{
}

/// Caching or dropping one tenant's configuration leaves what is served
/// for every other tenant unchanged.
pub proof fn law_cache_entries_are_independent(
    before: Map<Seq<char>, (TenantConfiguration, i64)>,
    ttl: u64,
    config: TenantConfiguration,
    at: i64,
    other: Seq<char>,
    now: i64,
)
    requires
        other != config.tenant_id@,
    ensures
        served(before.insert(config.tenant_id@, (config, at)), ttl, other, now) == served(before, ttl, other, now),
        served(before.remove(config.tenant_id@), ttl, other, now) == served(before, ttl, other, now),
{
}

/// A dropped configuration is not served.
pub proof fn law_invalidated_configuration_is_not_served(
    before: Map<Seq<char>, (TenantConfiguration, i64)>,
    ttl: u64,
    tenant_id: Seq<char>,
    now: i64,
)
    ensures
        served(before.remove(tenant_id), ttl, tenant_id, now) is None,
{
}

/// Recording a create and then a delete leaves the number of
/// configurations as it was.
pub proof fn law_create_then_delete_keeps_total(s: ConfigurationStats, t1: i64, t2: i64)
    requires
        s.total_configurations < usize::MAX,
    ensures
        recorded(recorded(s, "create"@, t1), "delete"@, t2).total_configurations == s.total_configurations,
{
    reveal_strlit("create");
    reveal_strlit("delete");
    assert("delete"@[0] != "create"@[0]);
}

/// An update goes ahead only when it names the stored version; it then
/// stores the next version, and its statement replaces the row only while
/// the row still holds the stored version.
pub proof fn law_update_names_current_version(
    c: TenantConfiguration,
    current: TenantConfiguration,
    now: i64,
    sections: ConfigurationSections,
)
    requires
        c.version < u64::MAX,
    ensures
        update_refusal(c, Some(&current)) is None ==> {
            &&& c.version == current.version
            &&& updated_at(c, now).version == current.version + 1
            &&& update_params(updated_at(c, now), sections, current.version)[8] == signed_text(
                (current.version as i64) as int,
            )
        },
        c.version != current.version ==> update_refusal(c, Some(&current)) == Some(
            ConfigErrorModel::VersionMismatch(current.version, c.version),
        ),
{
}

} // verus!
