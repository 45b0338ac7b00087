//! Laws of the settings.
use vstd::prelude::*;

#[allow(unused_imports)]
use crate::settings::{initialized, setting_table, SettingContext, SettingValueView, SettingView};
#[allow(unused_imports)]
use crate::text::stands_at;

verus! {

/// The characters of the names of the settings.
proof fn lemma_names()
    ensures
        forall|i: int, j: int|
            0 <= i < j < setting_table().len() ==> #[trigger] setting_table()[i].name
                != #[trigger] setting_table()[j].name,
        forall|i: int|
            0 <= i < setting_table().len() ==> stands_at(
                #[trigger] setting_table()[i].name,
                "pg_durable."@,
                0,
            ),
{
    reveal_strlit("pg_durable.");
    reveal_strlit("pg_durable.worker_role");
    reveal_strlit("pg_durable.database");
    reveal_strlit("pg_durable.host");
    reveal_strlit("pg_durable.max_management_connections");
    reveal_strlit("pg_durable.max_duroxide_connections");
    reveal_strlit("pg_durable.max_user_connections");
    reveal_strlit("pg_durable.max_new_transaction_starts");
    reveal_strlit("pg_durable.execution_acquire_timeout");
    reveal_strlit("pg_durable.new_transaction_start_timeout");
    reveal_strlit("pg_durable.enable_superuser_instances");
    reveal_strlit("pg_durable.list_instances_max_limit");
    reveal_strlit("pg_durable.retention_days");
    reveal_strlit("pg_durable.reconcile_interval");
    reveal_strlit("pg_durable.log_workflow_sql");
    let table = setting_table();
    assert forall|i: int| 0 <= i < table.len() implies stands_at(
        #[trigger] table[i].name,
        "pg_durable."@,
        0,
    ) by {
        assert(table[i].name.subrange(0, 11) =~= "pg_durable."@);
    }
    assert forall|i: int, j: int| 0 <= i < j < table.len() implies #[trigger] table[i].name
        != #[trigger] table[j].name by {
        assert(table[i].name.len() != table[j].name.len() || table[i].name[11]
            != table[j].name[11] || table[i].name[15] != table[j].name[15]);
    }
}

/// No two settings share a name, and all names have the extension's prefix.
pub proof fn law_names_distinct(i: int, j: int)
    requires
        0 <= i < setting_table().len(),
        0 <= j < setting_table().len(),
    ensures
        setting_table()[i].name == setting_table()[j].name ==> i == j,
        stands_at(setting_table()[i].name, "pg_durable."@, 0),
{
    lemma_names();
}

/// The initial value of every number lies in its range.
pub proof fn law_initial_values_in_range(i: int)
    requires
        0 <= i < setting_table().len(),
    ensures
        setting_table()[i].initial matches SettingValueView::Integer {
            value,
            least,
            greatest,
        } ==> least <= value <= greatest,
{
}

/// Every setting changes only with a restart, except the limit of
/// `df.list_instances()`, which a superuser can change at any time.
pub proof fn law_restart_to_change(i: int)
    requires
        0 <= i < setting_table().len(),
    ensures
        setting_table()[i].context == SettingContext::Suset <==> setting_table()[i].name
            == "pg_durable.list_instances_max_limit"@,
{
    lemma_names();
    assert(setting_table()[10].name == "pg_durable.list_instances_max_limit"@);
}

/// Only the setting that admits superusers is hidden from ordinary roles, and
/// it is off until it is set.
pub proof fn law_superusers_excluded(i: int)
    requires
        0 <= i < setting_table().len(),
    ensures
        setting_table()[i].superuser_only <==> setting_table()[i].name
            == "pg_durable.enable_superuser_instances"@,
        setting_table()[i].superuser_only ==> setting_table()[i].initial == SettingValueView::Flag(
            false,
        ),
{
    lemma_names();
    assert(setting_table()[9].name == "pg_durable.enable_superuser_instances"@);
}

/// A setting of this name is defined with this initial value.
pub open spec fn defined(name: Seq<char>, initial: SettingValueView) -> bool {
    exists|i: int|
        0 <= i < setting_table().len() && #[trigger] setting_table()[i].name == name
            && setting_table()[i].initial == initial
}

/// A whole number with its range.
pub open spec fn whole_number(value: i32, least: i32, greatest: i32) -> SettingValueView {
    SettingValueView::Integer { value, least, greatest }
}

/// The settings are fourteen, each under its name with its initial value and,
/// where it is a number, its range.
pub proof fn law_settings_defined()
    ensures
        setting_table().len() == 14,
        defined("pg_durable.worker_role"@, SettingValueView::Text("postgres"@)),
        defined("pg_durable.database"@, SettingValueView::Text("postgres"@)),
        defined("pg_durable.host"@, SettingValueView::Text(""@)),
        defined("pg_durable.max_management_connections"@, whole_number(6, 1, 1000)),
        defined("pg_durable.max_duroxide_connections"@, whole_number(10, 1, 1000)),
        defined("pg_durable.max_user_connections"@, whole_number(10, 1, 1000)),
        defined("pg_durable.max_new_transaction_starts"@, whole_number(2, 1, 1000)),
        defined("pg_durable.execution_acquire_timeout"@, whole_number(30, 1, 3600)),
        defined("pg_durable.new_transaction_start_timeout"@, whole_number(5, 1, 3600)),
        defined("pg_durable.enable_superuser_instances"@, SettingValueView::Flag(false)),
        defined("pg_durable.list_instances_max_limit"@, whole_number(1000, 1, 1_000_000)),
        defined("pg_durable.retention_days"@, whole_number(30, 0, 36500)),
        defined("pg_durable.reconcile_interval"@, whole_number(3600, 0, 86400)),
        defined("pg_durable.log_workflow_sql"@, SettingValueView::Flag(true)),
{
    assert(setting_table()[0].name == "pg_durable.worker_role"@);
    assert(setting_table()[1].name == "pg_durable.database"@);
    assert(setting_table()[2].name == "pg_durable.host"@);
    assert(setting_table()[3].name == "pg_durable.max_management_connections"@);
    assert(setting_table()[4].name == "pg_durable.max_duroxide_connections"@);
    assert(setting_table()[5].name == "pg_durable.max_user_connections"@);
    assert(setting_table()[6].name == "pg_durable.max_new_transaction_starts"@);
    assert(setting_table()[7].name == "pg_durable.execution_acquire_timeout"@);
    assert(setting_table()[8].name == "pg_durable.new_transaction_start_timeout"@);
    assert(setting_table()[9].name == "pg_durable.enable_superuser_instances"@);
    assert(setting_table()[10].name == "pg_durable.list_instances_max_limit"@);
    assert(setting_table()[11].name == "pg_durable.retention_days"@);
    assert(setting_table()[12].name == "pg_durable.reconcile_interval"@);
    assert(setting_table()[13].name == "pg_durable.log_workflow_sql"@);
}

/// A setting of this name is described in these words.
pub open spec fn described(name: Seq<char>, summary: Seq<char>, details: Seq<char>) -> bool {
    exists|i: int|
        0 <= i < setting_table().len() && #[trigger] setting_table()[i].name == name
            && setting_table()[i].summary == summary && setting_table()[i].details == details
}

/// Each setting is described in its own words.
pub proof fn law_settings_described()
    ensures
        described(
            "pg_durable.worker_role"@,
            "PostgreSQL role used by the pg_durable background worker"@,
            ""@,
        ),
        described(
            "pg_durable.database"@,
            "PostgreSQL database used by the pg_durable background worker"@,
            ""@,
        ),
        described(
            "pg_durable.host"@,
            "PostgreSQL host used by pg_durable connections"@,
            "Overrides the PGHOST environment variable when set. Requires a server restart to change."@,
        ),
        described(
            "pg_durable.max_management_connections"@,
            "Maximum number of connections in the background worker management pool (lifecycle, graph loading, status updates)"@,
            ""@,
        ),
        described(
            "pg_durable.max_duroxide_connections"@,
            "Maximum number of connections in the duroxide provider pool (orchestration state + listener)"@,
            ""@,
        ),
        described(
            "pg_durable.max_user_connections"@,
            "Maximum number of concurrent user-execution connections for SQL node execution"@,
            ""@,
        ),
        described(
            "pg_durable.max_new_transaction_starts"@,
            "Maximum number of concurrent transaction_mode => 'new' df.start() loopback launch sessions"@,
            ""@,
        ),
        described(
            "pg_durable.execution_acquire_timeout"@,
            "Seconds to wait for an available execution slot before failing a SQL node"@,
            ""@,
        ),
        described(
            "pg_durable.new_transaction_start_timeout"@,
            "Seconds to wait for a transaction_mode => 'new' launch slot before failing df.start()"@,
            ""@,
        ),
        described(
            "pg_durable.enable_superuser_instances"@,
            "Allow pg_durable instances whose submitted_by role is a PostgreSQL superuser"@,
            "Disabled by default to prevent superuser execution-identity forgery via RLS-bypassing roles. Requires server restart to change."@,
        ),
        described(
            "pg_durable.list_instances_max_limit"@,
            "Maximum number of rows df.list_instances() returns in a single call before raising an error"@,
            "A call to df.list_instances() with limit_count above this value raises an error instead of silently truncating the result. Clients needing more rows should use the paginated df.list_instances overload (after_cursor/next_cursor). Superusers can change this at runtime without a restart; by default ordinary callers cannot raise it."@,
        ),
        described(
            "pg_durable.retention_days"@,
            "Days a terminal instance is retained before reconciliation removes it"@,
            "Background reconciliation removes 'completed'/'failed'/'cancelled' df.instances rows (and their engine records) once they are older than this many days, subject to a fixed hard cap on the number retained. The same age bound governs when orphaned engine records left by a rolled-back df.start() are reclaimed. 0 removes terminal instances as soon as the next pass runs."@,
        ),
        described(
            "pg_durable.reconcile_interval"@,
            "Seconds between background reconciliation passes (0 disables reconciliation)"@,
            "Each background reconciliation pass removes expired terminal instances and reclaims orphaned engine records left by a rolled-back df.start(). Set to 0 to disable background reconciliation entirely."@,
        ),
        described(
            "pg_durable.log_workflow_sql"@,
            "Log the SQL text of executed workflow nodes to the worker log"@,
            "The SQL is logged after variable substitution, so any credential held in a df.vars variable and spliced into a query is written to the PostgreSQL server log in cleartext. Set to off in environments where the server log is less protected than the database. Turning this off also removes the primary forensic record of what workflows executed. Requires server restart to change."@,
        ),
{
    assert(setting_table()[0].name == "pg_durable.worker_role"@);
    assert(setting_table()[1].name == "pg_durable.database"@);
    assert(setting_table()[2].name == "pg_durable.host"@);
    assert(setting_table()[3].name == "pg_durable.max_management_connections"@);
    assert(setting_table()[4].name == "pg_durable.max_duroxide_connections"@);
    assert(setting_table()[5].name == "pg_durable.max_user_connections"@);
    assert(setting_table()[6].name == "pg_durable.max_new_transaction_starts"@);
    assert(setting_table()[7].name == "pg_durable.execution_acquire_timeout"@);
    assert(setting_table()[8].name == "pg_durable.new_transaction_start_timeout"@);
    assert(setting_table()[9].name == "pg_durable.enable_superuser_instances"@);
    assert(setting_table()[10].name == "pg_durable.list_instances_max_limit"@);
    assert(setting_table()[11].name == "pg_durable.retention_days"@);
    assert(setting_table()[12].name == "pg_durable.reconcile_interval"@);
    assert(setting_table()[13].name == "pg_durable.log_workflow_sql"@);
}

/// The settings are defined where the server is loading its preloaded
/// libraries; anywhere else there is an error, which says how to get there.
pub proof fn law_preloaded_only()
    ensures
        initialized(true) == Ok::<Seq<SettingView>, Seq<char>>(setting_table()),
        initialized(false) == Err::<Seq<SettingView>, Seq<char>>(
            "pg_durable must be loaded via shared_preload_libraries.\n\nHINT: Add 'pg_durable' to shared_preload_libraries in postgresql.conf and restart the server."@,
        ),
{
}

} // verus!
