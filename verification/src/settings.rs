//! Start-up: where the library may be loaded, and the settings that it defines.
use vstd::prelude::*;


verus! {

/// Who can change a setting, and when.
#[derive(Clone, Copy, PartialEq, Eq, Structural, Debug)]
pub enum SettingContext {
    /// Only with a restart of the server.
    Postmaster,
    /// A superuser, at any time.
    Suset,
}

/// The initial value of a setting.
pub enum SettingValue {
    Text(&'static str),
    Integer { value: i32, least: i32, greatest: i32 },
    Flag(bool),
}

/// A setting of the extension.
pub struct Setting {
    pub name: &'static str,
    pub summary: &'static str,
    pub details: &'static str,
    pub initial: SettingValue,
    pub context: SettingContext,
    /// Hidden from ordinary roles.
    pub superuser_only: bool,
}

/// The mathematical value of a `SettingValue`.
pub enum SettingValueView {
    Text(Seq<char>),
    Integer { value: i32, least: i32, greatest: i32 },
    Flag(bool),
}

/// The mathematical value of a `Setting`.
pub struct SettingView {
    pub name: Seq<char>,
    pub summary: Seq<char>,
    pub details: Seq<char>,
    pub initial: SettingValueView,
    pub context: SettingContext,
    pub superuser_only: bool,
}

impl View for SettingValue {
    type V = SettingValueView;

    open spec fn view(&self) -> SettingValueView {
        match *self {
            SettingValue::Text(text) => SettingValueView::Text(text@),
            SettingValue::Integer { value, least, greatest } => SettingValueView::Integer {
                value,
                least,
                greatest,
            },
            SettingValue::Flag(flag) => SettingValueView::Flag(flag),
        }
    }
}

impl View for Setting {
    type V = SettingView;

    open spec fn view(&self) -> SettingView {
        SettingView {
            name: self.name@,
            summary: self.summary@,
            details: self.details@,
            initial: self.initial@,
            context: self.context,
            superuser_only: self.superuser_only,
        }
    }
}

/// The initial value of `pg_durable.worker_role`.
pub const WORKER_ROLE: &'static str = "postgres";

/// The initial value of `pg_durable.database`.
pub const DATABASE: &'static str = "postgres";

/// The initial value of `pg_durable.host`.
pub const HOST: &'static str = "";

/// The initial value of `pg_durable.max_management_connections`.
pub const MAX_MANAGEMENT_CONNECTIONS: i32 = 6;

/// The initial value of `pg_durable.max_duroxide_connections`.
pub const MAX_DUROXIDE_CONNECTIONS: i32 = 10;

/// The initial value of `pg_durable.max_user_connections`.
pub const MAX_USER_CONNECTIONS: i32 = 10;

/// The initial value of `pg_durable.max_new_transaction_starts`.
pub const MAX_NEW_TRANSACTION_STARTS: i32 = 2;

/// The initial value of `pg_durable.execution_acquire_timeout`.
pub const EXECUTION_ACQUIRE_TIMEOUT: i32 = 30;

/// The initial value of `pg_durable.new_transaction_start_timeout`.
pub const NEW_TRANSACTION_START_TIMEOUT: i32 = 5;

/// The initial value of `pg_durable.enable_superuser_instances`.
pub const ENABLE_SUPERUSER_INSTANCES: bool = false;

/// The initial value of `pg_durable.list_instances_max_limit`.
pub const LIST_INSTANCES_MAX_LIMIT: i32 = 1000;

/// The initial value of `pg_durable.retention_days`.
pub const RETENTION_DAYS: i32 = 30;

/// The initial value of `pg_durable.reconcile_interval`.
pub const RECONCILE_INTERVAL: i32 = 3600;

/// The initial value of `pg_durable.log_workflow_sql`.
pub const LOG_WORKFLOW_SQL: bool = true;

/// The settings of the extension, in the order in which they are defined.
pub open spec fn setting_table() -> Seq<SettingView> {
    seq![
        SettingView {
            name: "pg_durable.worker_role"@,
            summary: "PostgreSQL role used by the pg_durable background worker"@,
            details: ""@,
            initial: SettingValueView::Text("postgres"@),
            context: SettingContext::Postmaster,
            superuser_only: false,
        },
        SettingView {
            name: "pg_durable.database"@,
            summary: "PostgreSQL database used by the pg_durable background worker"@,
            details: ""@,
            initial: SettingValueView::Text("postgres"@),
            context: SettingContext::Postmaster,
            superuser_only: false,
        },
        SettingView {
            name: "pg_durable.host"@,
            summary: "PostgreSQL host used by pg_durable connections"@,
            details: "Overrides the PGHOST environment variable when set. Requires a server restart to change."@,
            initial: SettingValueView::Text(""@),
            context: SettingContext::Postmaster,
            superuser_only: false,
        },
        SettingView {
            name: "pg_durable.max_management_connections"@,
            summary: "Maximum number of connections in the background worker management pool (lifecycle, graph loading, status updates)"@,
            details: ""@,
            initial: SettingValueView::Integer { value: 6, least: 1, greatest: 1000 },
            context: SettingContext::Postmaster,
            superuser_only: false,
        },
        SettingView {
            name: "pg_durable.max_duroxide_connections"@,
            summary: "Maximum number of connections in the duroxide provider pool (orchestration state + listener)"@,
            details: ""@,
            initial: SettingValueView::Integer { value: 10, least: 1, greatest: 1000 },
            context: SettingContext::Postmaster,
            superuser_only: false,
        },
        SettingView {
            name: "pg_durable.max_user_connections"@,
            summary: "Maximum number of concurrent user-execution connections for SQL node execution"@,
            details: ""@,
            initial: SettingValueView::Integer { value: 10, least: 1, greatest: 1000 },
            context: SettingContext::Postmaster,
            superuser_only: false,
        },
        SettingView {
            name: "pg_durable.max_new_transaction_starts"@,
            summary: "Maximum number of concurrent transaction_mode => 'new' df.start() loopback launch sessions"@,
            details: ""@,
            initial: SettingValueView::Integer { value: 2, least: 1, greatest: 1000 },
            context: SettingContext::Postmaster,
            superuser_only: false,
        },
        SettingView {
            name: "pg_durable.execution_acquire_timeout"@,
            summary: "Seconds to wait for an available execution slot before failing a SQL node"@,
            details: ""@,
            initial: SettingValueView::Integer { value: 30, least: 1, greatest: 3600 },
            context: SettingContext::Postmaster,
            superuser_only: false,
        },
        SettingView {
            name: "pg_durable.new_transaction_start_timeout"@,
            summary: "Seconds to wait for a transaction_mode => 'new' launch slot before failing df.start()"@,
            details: ""@,
            initial: SettingValueView::Integer { value: 5, least: 1, greatest: 3600 },
            context: SettingContext::Postmaster,
            superuser_only: false,
        },
        SettingView {
            name: "pg_durable.enable_superuser_instances"@,
            summary: "Allow pg_durable instances whose submitted_by role is a PostgreSQL superuser"@,
            details: "Disabled by default to prevent superuser execution-identity forgery via RLS-bypassing roles. Requires server restart to change."@,
            initial: SettingValueView::Flag(false),
            context: SettingContext::Postmaster,
            superuser_only: true,
        },
        SettingView {
            name: "pg_durable.list_instances_max_limit"@,
            summary: "Maximum number of rows df.list_instances() returns in a single call before raising an error"@,
            details: "A call to df.list_instances() with limit_count above this value raises an error instead of silently truncating the result. Clients needing more rows should use the paginated df.list_instances overload (after_cursor/next_cursor). Superusers can change this at runtime without a restart; by default ordinary callers cannot raise it."@,
            initial: SettingValueView::Integer { value: 1000, least: 1, greatest: 1_000_000 },
            context: SettingContext::Suset,
            superuser_only: false,
        },
        SettingView {
            name: "pg_durable.retention_days"@,
            summary: "Days a terminal instance is retained before reconciliation removes it"@,
            details: "Background reconciliation removes 'completed'/'failed'/'cancelled' df.instances rows (and their engine records) once they are older than this many days, subject to a fixed hard cap on the number retained. The same age bound governs when orphaned engine records left by a rolled-back df.start() are reclaimed. 0 removes terminal instances as soon as the next pass runs."@,
            initial: SettingValueView::Integer { value: 30, least: 0, greatest: 36500 },
            context: SettingContext::Postmaster,
            superuser_only: false,
        },
        SettingView {
            name: "pg_durable.reconcile_interval"@,
            summary: "Seconds between background reconciliation passes (0 disables reconciliation)"@,
            details: "Each background reconciliation pass removes expired terminal instances and reclaims orphaned engine records left by a rolled-back df.start(). Set to 0 to disable background reconciliation entirely."@,
            initial: SettingValueView::Integer { value: 3600, least: 0, greatest: 86400 },
            context: SettingContext::Postmaster,
            superuser_only: false,
        },
        SettingView {
            name: "pg_durable.log_workflow_sql"@,
            summary: "Log the SQL text of executed workflow nodes to the worker log"@,
            details: "The SQL is logged after variable substitution, so any credential held in a df.vars variable and spliced into a query is written to the PostgreSQL server log in cleartext. Set to off in environments where the server log is less protected than the database. Turning this off also removes the primary forensic record of what workflows executed. Requires server restart to change."@,
            initial: SettingValueView::Flag(true),
            context: SettingContext::Postmaster,
            superuser_only: false,
        },
    ]
}

/// The answer to an attempt to load the library into a running server.
pub open spec fn preload_message() -> Seq<char> {
    "pg_durable must be loaded via shared_preload_libraries.\n\nHINT: Add 'pg_durable' to shared_preload_libraries in postgresql.conf and restart the server."@
}

/// What is defined at start-up, or the error instead.
pub open spec fn initialized(preloading: bool) -> Result<Seq<SettingView>, Seq<char>> {
    if preloading {
        Ok(setting_table())
    } else {
        Err(preload_message())
    }
}

/// The outcome of the start-up as a mathematical value.
pub open spec fn init_view(outcome: Result<Vec<Setting>, &'static str>) -> Result<
    Seq<SettingView>,
    Seq<char>,
> {
    match outcome {
        Ok(settings) => Ok(settings@.map_values(|s: Setting| s@)),
        Err(message) => Err(message@),
    }
}

/// Starts the extension: gives the settings to define, provided that the server
/// is loading its preloaded libraries.
pub fn pg_init(preloading: bool) -> (outcome: Result<Vec<Setting>, &'static str>)
    ensures
        init_view(outcome) == initialized(preloading),
{
    if !preloading {
        return Err(
            "pg_durable must be loaded via shared_preload_libraries.\n\nHINT: Add 'pg_durable' to shared_preload_libraries in postgresql.conf and restart the server.",
        );
    }
    let settings = vec![
        Setting {
            name: "pg_durable.worker_role",
            summary: "PostgreSQL role used by the pg_durable background worker",
            details: "",
            initial: SettingValue::Text(WORKER_ROLE),
            context: SettingContext::Postmaster,
            superuser_only: false,
        },
        Setting {
            name: "pg_durable.database",
            summary: "PostgreSQL database used by the pg_durable background worker",
            details: "",
            initial: SettingValue::Text(DATABASE),
            context: SettingContext::Postmaster,
            superuser_only: false,
        },
        Setting {
            name: "pg_durable.host",
            summary: "PostgreSQL host used by pg_durable connections",
            details: "Overrides the PGHOST environment variable when set. Requires a server restart to change.",
            initial: SettingValue::Text(HOST),
            context: SettingContext::Postmaster,
            superuser_only: false,
        },
        Setting {
            name: "pg_durable.max_management_connections",
            summary: "Maximum number of connections in the background worker management pool (lifecycle, graph loading, status updates)",
            details: "",
            initial: SettingValue::Integer { value: MAX_MANAGEMENT_CONNECTIONS, least: 1, greatest: 1000 },
            context: SettingContext::Postmaster,
            superuser_only: false,
        },
        Setting {
            name: "pg_durable.max_duroxide_connections",
            summary: "Maximum number of connections in the duroxide provider pool (orchestration state + listener)",
            details: "",
            initial: SettingValue::Integer { value: MAX_DUROXIDE_CONNECTIONS, least: 1, greatest: 1000 },
            context: SettingContext::Postmaster,
            superuser_only: false,
        },
        Setting {
            name: "pg_durable.max_user_connections",
            summary: "Maximum number of concurrent user-execution connections for SQL node execution",
            details: "",
            initial: SettingValue::Integer { value: MAX_USER_CONNECTIONS, least: 1, greatest: 1000 },
            context: SettingContext::Postmaster,
            superuser_only: false,
        },
        Setting {
            name: "pg_durable.max_new_transaction_starts",
            summary: "Maximum number of concurrent transaction_mode => 'new' df.start() loopback launch sessions",
            details: "",
            initial: SettingValue::Integer { value: MAX_NEW_TRANSACTION_STARTS, least: 1, greatest: 1000 },
            context: SettingContext::Postmaster,
            superuser_only: false,
        },
        Setting {
            name: "pg_durable.execution_acquire_timeout",
            summary: "Seconds to wait for an available execution slot before failing a SQL node",
            details: "",
            initial: SettingValue::Integer { value: EXECUTION_ACQUIRE_TIMEOUT, least: 1, greatest: 3600 },
            context: SettingContext::Postmaster,
            superuser_only: false,
        },
        Setting {
            name: "pg_durable.new_transaction_start_timeout",
            summary: "Seconds to wait for a transaction_mode => 'new' launch slot before failing df.start()",
            details: "",
            initial: SettingValue::Integer { value: NEW_TRANSACTION_START_TIMEOUT, least: 1, greatest: 3600 },
            context: SettingContext::Postmaster,
            superuser_only: false,
        },
        Setting {
            name: "pg_durable.enable_superuser_instances",
            summary: "Allow pg_durable instances whose submitted_by role is a PostgreSQL superuser",
            details: "Disabled by default to prevent superuser execution-identity forgery via RLS-bypassing roles. Requires server restart to change.",
            initial: SettingValue::Flag(ENABLE_SUPERUSER_INSTANCES),
            context: SettingContext::Postmaster,
            superuser_only: true,
        },
        Setting {
            name: "pg_durable.list_instances_max_limit",
            summary: "Maximum number of rows df.list_instances() returns in a single call before raising an error",
            details: "A call to df.list_instances() with limit_count above this value raises an error instead of silently truncating the result. Clients needing more rows should use the paginated df.list_instances overload (after_cursor/next_cursor). Superusers can change this at runtime without a restart; by default ordinary callers cannot raise it.",
            initial: SettingValue::Integer { value: LIST_INSTANCES_MAX_LIMIT, least: 1, greatest: 1_000_000 },
            context: SettingContext::Suset,
            superuser_only: false,
        },
        Setting {
            name: "pg_durable.retention_days",
            summary: "Days a terminal instance is retained before reconciliation removes it",
            details: "Background reconciliation removes 'completed'/'failed'/'cancelled' df.instances rows (and their engine records) once they are older than this many days, subject to a fixed hard cap on the number retained. The same age bound governs when orphaned engine records left by a rolled-back df.start() are reclaimed. 0 removes terminal instances as soon as the next pass runs.",
            initial: SettingValue::Integer { value: RETENTION_DAYS, least: 0, greatest: 36500 },
            context: SettingContext::Postmaster,
            superuser_only: false,
        },
        Setting {
            name: "pg_durable.reconcile_interval",
            summary: "Seconds between background reconciliation passes (0 disables reconciliation)",
            details: "Each background reconciliation pass removes expired terminal instances and reclaims orphaned engine records left by a rolled-back df.start(). Set to 0 to disable background reconciliation entirely.",
            initial: SettingValue::Integer { value: RECONCILE_INTERVAL, least: 0, greatest: 86400 },
            context: SettingContext::Postmaster,
            superuser_only: false,
        },
        Setting {
            name: "pg_durable.log_workflow_sql",
            summary: "Log the SQL text of executed workflow nodes to the worker log",
            details: "The SQL is logged after variable substitution, so any credential held in a df.vars variable and spliced into a query is written to the PostgreSQL server log in cleartext. Set to off in environments where the server log is less protected than the database. Turning this off also removes the primary forensic record of what workflows executed. Requires server restart to change.",
            initial: SettingValue::Flag(LOG_WORKFLOW_SQL),
            context: SettingContext::Postmaster,
            superuser_only: false,
        },
    ];
    assert(settings@.map_values(|s: Setting| s@) =~= setting_table());
    Ok(settings)
}

} // verus!
